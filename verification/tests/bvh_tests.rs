use pathtracer::bvh::BvhError;
use pathtracer::bvh::BvhNode;
use pathtracer::fx::FX_ONE;
use pathtracer::hittable::HittableList;
use pathtracer::materials::Lambertian;
use pathtracer::materials::Material;
use pathtracer::math::vec::Vec3;
use pathtracer::objects::Primitive;
use pathtracer::objects::Sphere;
use pathtracer::objects::XZRect;
use pathtracer::ray::Ray;
use pathtracer::sampler::Sampler;
use pathtracer::textures::SolidColor;
use pathtracer::textures::Texture;

fn grey() -> Material {
    Material::Lambertian(Lambertian::new(Texture::Solid(SolidColor::new(Vec3::newv(FX_ONE / 2)))))
}

fn test_scene() -> Vec<Primitive> {
    vec![
        Primitive::Sphere(Sphere::new(Vec3::new(0, 0, -5 * FX_ONE), FX_ONE, grey())),
        Primitive::Sphere(Sphere::new(Vec3::new(3 * FX_ONE, 0, -8 * FX_ONE), 2 * FX_ONE, grey())),
        Primitive::Sphere(Sphere::new(Vec3::new(-2 * FX_ONE, FX_ONE, -3 * FX_ONE), FX_ONE, grey())),
        Primitive::XZRect(XZRect::new(
            -4 * FX_ONE, 4 * FX_ONE, -9 * FX_ONE, -1 * FX_ONE, -FX_ONE, grey())),
        Primitive::Sphere(Sphere::new(Vec3::new(0, 2 * FX_ONE, -6 * FX_ONE), FX_ONE, grey())),
    ]
}

#[test]
fn empty_scene_is_rejected() {
    let mut smp = Sampler::from_seed(1);
    match BvhNode::new(Vec::new(), 0, FX_ONE, &mut smp) {
        Err(BvhError::EmptyList) => {},
        _ => panic!("a tree over no primitives must be refused"),
    }
}

#[test]
fn tree_matches_flat_list_on_ray_batch() {
    let mut smp = Sampler::from_seed(42);
    let tree = BvhNode::new(test_scene(), 0, FX_ONE, &mut smp).expect("buildable scene");
    let flat = HittableList { objects: test_scene() };

    let mut hits = 0;
    for i in 0..30 {
        for j in 0..30 {
            let dx = (i - 15) * (FX_ONE / 16);
            let dy = (j - 15) * (FX_ONE / 16);
            let r = Ray::new(Vec3::new(0, 0, 2 * FX_ONE), Vec3::new(dx, dy, -FX_ONE));
            let from_tree = tree.hit(&r, 66, 1000 * FX_ONE, &mut smp);
            let from_list = flat.hit(&r, 66, 1000 * FX_ONE, &mut smp);
            match (from_tree, from_list) {
                (None, None) => {},
                (Some(a), Some(b)) => {
                    assert_eq!(a.t, b.t);
                    assert_eq!(a.p, b.p);
                    assert_eq!(a.normal, b.normal);
                    hits += 1;
                },
                _ => panic!("tree and flat scan disagree on whether the ray hits"),
            }
        }
    }
    assert!(hits > 0);
}

#[test]
fn single_primitive_tree_hits_like_the_primitive() {
    let mut smp = Sampler::from_seed(9);
    let sphere = Sphere::new(Vec3::new(0, 0, -5 * FX_ONE), FX_ONE, grey());
    let tree = BvhNode::new(
        vec![Primitive::Sphere(Sphere::new(Vec3::new(0, 0, -5 * FX_ONE), FX_ONE, grey()))],
        0,
        FX_ONE,
        &mut smp,
    ).expect("buildable");
    let r = Ray::new(Vec3::zero(), Vec3::new(0, 0, -FX_ONE));
    let a = tree.hit(&r, 66, 1000 * FX_ONE, &mut smp).expect("tree hit");
    let b = sphere.hit(&r, 66, 1000 * FX_ONE).expect("direct hit");
    assert_eq!(a.t, b.t);
    assert_eq!(a.t, 4 * FX_ONE);
}

#[test]
fn tree_box_covers_the_scene() {
    let mut smp = Sampler::from_seed(5);
    let tree = BvhNode::new(test_scene(), 0, FX_ONE, &mut smp).expect("buildable scene");
    let ab = tree.bounding_box(0, FX_ONE).expect("a tree always has a box");
    // every scene member's box lies inside
    for p in test_scene() {
        let pb = p.bounding_box(0, FX_ONE).expect("bounded primitive");
        assert!(ab.min.x <= pb.min.x && pb.max.x <= ab.max.x);
        assert!(ab.min.y <= pb.min.y && pb.max.y <= ab.max.y);
        assert!(ab.min.z <= pb.min.z && pb.max.z <= ab.max.z);
    }
}

#[test]
fn depth_probe_counts_levels() {
    let mut smp = Sampler::from_seed(21);
    let tree = BvhNode::new(test_scene(), 0, FX_ONE, &mut smp).expect("buildable scene");
    let flat = HittableList { objects: test_scene() };
    let r = Ray::new(Vec3::new(0, 0, 2 * FX_ONE), Vec3::new(0, 0, -FX_ONE));
    let (t_tree, depth) = tree.bvh_depth(&r, 66, 1000 * FX_ONE, &mut smp).expect("the ray hits");
    let (t_flat, flat_depth) = flat.bvh_depth(&r, 66, 1000 * FX_ONE, &mut smp).expect("the ray hits");
    // same closest parameter; the tree counts its levels, the flat scan one
    assert_eq!(t_tree, t_flat);
    assert!(depth >= 2);
    assert_eq!(flat_depth, 1);
}
