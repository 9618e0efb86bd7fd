use raytracer::bvh::{bvh_plan, BvhPlan, SurfaceKeys};
use raytracer::integrator::{ray_color_step, RadianceStep, SurfaceEvent};
use raytracer::mesh::triangle_index_triples;
use raytracer::perlin::{lattice_index, perlin_generate_perm, permute, POINT_COUNT};
use raytracer::render::worker_sample_counts;
use raytracer::{flip_row, random_int};

fn collect_leaves(plan: &BvhPlan, out: &mut Vec<usize>) {
    match plan {
        BvhPlan::Leaf(i) => out.push(*i),
        BvhPlan::Split(l, r) => {
            collect_leaves(l, out);
            collect_leaves(r, out);
        }
    }
}

fn leaves_of(plan: &BvhPlan) -> Vec<usize> {
    let mut out = Vec::new();
    collect_leaves(plan, &mut out);
    out
}

#[test]
fn bvh_plan_single_surface_is_a_leaf() {
    let keys = vec![SurfaceKeys { x: 5, y: 5, z: 5 }];
    let plan = bvh_plan(&keys);
    assert!(matches!(plan, BvhPlan::Leaf(0)));
}

#[test]
fn bvh_plan_two_surfaces_split_into_two_leaves() {
    let keys = vec![
        SurfaceKeys { x: 9, y: 9, z: 9 },
        SurfaceKeys { x: 1, y: 1, z: 1 },
    ];
    let plan = bvh_plan(&keys);
    let mut ls = leaves_of(&plan);
    ls.sort();
    assert_eq!(ls, vec![0, 1]);
    match plan {
        BvhPlan::Split(l, r) => {
            // surface 1 has the smaller key along every axis
            assert!(matches!(*l, BvhPlan::Leaf(1)));
            assert!(matches!(*r, BvhPlan::Leaf(0)));
        }
        BvhPlan::Leaf(_) => panic!("two surfaces must split"),
    }
}

#[test]
fn bvh_plan_covers_every_surface_exactly_once() {
    // a spread of boxes, some sharing a key along some axis
    let mut keys = Vec::new();
    for s in 0..23u64 {
        keys.push(SurfaceKeys {
            x: (s * 7) % 13,
            y: 100 - s,
            z: s % 3,
        });
    }
    let plan = bvh_plan(&keys);
    let mut ls = leaves_of(&plan);
    ls.sort();
    let expected: Vec<usize> = (0..23).collect();
    assert_eq!(ls, expected);
}

#[test]
fn bvh_plan_covers_random_collections() {
    for n in [1usize, 2, 3, 4, 17, 100] {
        let mut keys = Vec::new();
        for _ in 0..n {
            keys.push(SurfaceKeys {
                x: rand::random::<u64>(),
                y: rand::random::<u64>(),
                z: rand::random::<u64>(),
            });
        }
        let plan = bvh_plan(&keys);
        let mut ls = leaves_of(&plan);
        ls.sort();
        let expected: Vec<usize> = (0..n).collect();
        assert_eq!(ls, expected);
    }
}

#[test]
fn bvh_plan_handles_all_keys_equal() {
    let keys = vec![SurfaceKeys { x: 4, y: 4, z: 4 }; 6];
    let plan = bvh_plan(&keys);
    let mut ls = leaves_of(&plan);
    ls.sort();
    assert_eq!(ls, vec![0, 1, 2, 3, 4, 5]);
}

#[test]
fn spent_budget_is_black_whatever_the_scene_says() {
    for ev in [SurfaceEvent::Miss, SurfaceEvent::Emit, SurfaceEvent::Scatter] {
        assert_eq!(ray_color_step(0, ev), RadianceStep::Black);
        assert_eq!(ray_color_step(-3, ev), RadianceStep::Black);
    }
}

#[test]
fn emitter_contributes_its_emission_alone() {
    assert_eq!(ray_color_step(7, SurfaceEvent::Emit), RadianceStep::EmittedOnly);
}

#[test]
fn one_bounce_budget_gives_black_disk_on_background() {
    // a single diffuse sphere, one bounce of budget: a ray either misses and
    // takes the background, or scatters once and the recursion at the spent
    // budget yields black
    assert_eq!(ray_color_step(1, SurfaceEvent::Miss), RadianceStep::Background);
    assert_eq!(
        ray_color_step(1, SurfaceEvent::Scatter),
        RadianceStep::EmittedPlusScattered
    );
    assert_eq!(ray_color_step(1 - 1, SurfaceEvent::Scatter), RadianceStep::Black);
    assert_eq!(ray_color_step(1 - 1, SurfaceEvent::Miss), RadianceStep::Black);
}

#[test]
fn worker_counts_cover_the_budget_when_divisible() {
    let counts = worker_sample_counts(64, 16);
    assert_eq!(counts.len(), 16);
    assert!(counts.iter().all(|&c| c == 4));
    assert_eq!(counts.iter().sum::<u32>(), 64);
}

#[test]
fn worker_counts_truncate_when_not_divisible() {
    let counts = worker_sample_counts(10, 3);
    assert_eq!(counts, vec![3, 3, 3]);
    assert_eq!(counts.iter().sum::<u32>(), 9);
}

#[test]
fn permutation_table_holds_each_index_once() {
    let p = perlin_generate_perm();
    assert_eq!(p.len(), 256);
    let mut sorted = p.clone();
    sorted.sort();
    let expected: Vec<u32> = (0..256).collect();
    assert_eq!(sorted, expected);
}

#[test]
fn permute_keeps_the_entries_and_the_tail() {
    let mut v: Vec<u32> = vec![9, 8, 7, 6, 5, 40, 41];
    permute(&mut v, 5);
    assert_eq!(&v[5..], &[40, 41]);
    let mut sorted = v.clone();
    sorted.sort();
    assert_eq!(sorted, vec![5, 6, 7, 8, 9, 40, 41]);
}

#[test]
fn lattice_index_stays_inside_the_gradients() {
    let px = perlin_generate_perm();
    let py = perlin_generate_perm();
    let pz = perlin_generate_perm();
    for (i, j, k) in [(0, 0, 0), (-1, -256, 255), (1023, -1024, 7), (i32::MIN, i32::MAX, -3)] {
        assert!(lattice_index(&px, &py, &pz, i, j, k) < POINT_COUNT);
    }
    // the slot really is the xor of the three masked table entries
    let expected = px[5] ^ py[255] ^ pz[0];
    assert_eq!(lattice_index(&px, &py, &pz, 5, -1, 256), expected);
}

#[test]
fn random_int_stays_in_its_range() {
    for _ in 0..200 {
        let r = random_int(3, 7);
        assert!((3..=7).contains(&r));
    }
    assert_eq!(random_int(5, 5), 5);
}

#[test]
fn triangles_come_out_in_buffer_order() {
    let indices: Vec<u32> = vec![0, 1, 2, 2, 1, 0, 1, 1];
    let ts = triangle_index_triples(&indices, 3).unwrap();
    assert_eq!(ts.len(), 2);
    assert_eq!((ts[0].a, ts[0].b, ts[0].c), (0, 1, 2));
    assert_eq!((ts[1].a, ts[1].b, ts[1].c), (2, 1, 0));
}

#[test]
fn out_of_range_vertex_index_is_rejected() {
    let indices: Vec<u32> = vec![0, 1, 5];
    assert!(triangle_index_triples(&indices, 3).is_none());
}

#[test]
fn empty_index_buffer_means_no_triangles() {
    let indices: Vec<u32> = Vec::new();
    let ts = triangle_index_triples(&indices, 0).unwrap();
    assert!(ts.is_empty());
}

#[test]
fn rows_flip_top_to_bottom() {
    assert_eq!(flip_row(0, 5), 4);
    assert_eq!(flip_row(4, 5), 0);
}
