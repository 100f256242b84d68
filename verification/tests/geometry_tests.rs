use cube_demo::geometry::cube_corners;
use cube_demo::geometry::edge_list;
use cube_demo::geometry::Corner;

fn sq_dist(a: Corner, b: Corner) -> i32 {
    (a.x - b.x) * (a.x - b.x) + (a.y - b.y) * (a.y - b.y) + (a.z - b.z) * (a.z - b.z)
}

#[test]
fn eight_distinct_corners() {
    let corners = cube_corners();
    assert_eq!(corners.len(), 8);
    for c in &corners {
        assert!(c.x == -1 || c.x == 1);
        assert!(c.y == -1 || c.y == 1);
        assert!(c.z == -1 || c.z == 1);
    }
    for i in 0..corners.len() {
        for j in 0..corners.len() {
            if i != j {
                assert_ne!(corners[i], corners[j]);
            }
        }
    }
}

#[test]
fn twelve_edges() {
    assert_eq!(edge_list().len(), 12);
}

#[test]
fn edges_join_adjacent_corners() {
    let corners = cube_corners();
    for e in &edge_list() {
        // Distance exactly 2: squared Euclidean distance 4.
        assert_eq!(sq_dist(e.a, e.b), 4);
        // The tie-break's direction was kept.
        assert!(e.a.x + e.a.y + e.a.z > e.b.x + e.b.y + e.b.z);
        // Both endpoints are cube corners.
        assert!(corners.contains(&e.a));
        assert!(corners.contains(&e.b));
    }
}

#[test]
fn no_undirected_pair_twice() {
    let edges = edge_list();
    for i in 0..edges.len() {
        for j in 0..edges.len() {
            if i != j {
                let same = (edges[i].a == edges[j].a && edges[i].b == edges[j].b)
                    || (edges[i].a == edges[j].b && edges[i].b == edges[j].a);
                assert!(!same);
            }
        }
    }
}

#[test]
fn each_corner_has_three_edges() {
    let corners = cube_corners();
    let edges = edge_list();
    for c in &corners {
        let n = edges.iter().filter(|e| e.a == *c || e.b == *c).count();
        assert_eq!(n, 3);
    }
}
