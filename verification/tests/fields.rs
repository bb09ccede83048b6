use plasma_furnace::field::{can_address, Field2, Field3};
use plasma_furnace::mesh::{AxialNode, CylindricalMesh, RadialNode, ZoneMap, ZoneShapeError};
use plasma_furnace::scalar::Scalar;

fn s(x: f64) -> Scalar {
    Scalar::from_bits(x.to_bits())
}

fn f(x: Scalar) -> f64 {
    f64::from_bits(x.to_bits())
}

#[test]
fn a_filled_field_holds_the_value_everywhere() {
    let field = Field2::filled(3, 4, s(25.0)).unwrap();
    assert_eq!(field.row_count(), 3);
    assert_eq!(field.col_count(), 4);
    for i in 0..3 {
        for j in 0..4 {
            assert_eq!(f(field.get(i, j)), 25.0);
        }
    }
}

#[test]
fn setting_a_node_changes_that_node_only() {
    let mut field = Field2::filled(3, 4, s(1.0)).unwrap();
    field.set(2, 1, s(7.5));
    for i in 0..3 {
        for j in 0..4 {
            let expected = if (i, j) == (2, 1) { 7.5 } else { 1.0 };
            assert_eq!(f(field.get(i, j)), expected);
        }
    }
}

#[test]
fn rows_and_columns_are_not_swapped() {
    let mut field = Field2::filled(2, 5, s(0.0)).unwrap();
    field.set(1, 4, s(3.0));
    field.set(0, 1, s(2.0));
    assert_eq!(f(field.get(1, 4)), 3.0);
    assert_eq!(f(field.get(0, 1)), 2.0);
    assert_eq!(f(field.get(1, 0)), 0.0);
    assert_eq!(f(field.get(0, 4)), 0.0);
}

#[test]
fn a_duplicate_is_independent_of_its_source() {
    let mut field = Field2::filled(2, 2, s(1.0)).unwrap();
    field.set(0, 1, s(4.0));
    let mut copy = field.duplicate();
    assert_eq!(f(copy.get(0, 1)), 4.0);
    assert_eq!(f(copy.get(1, 1)), 1.0);
    copy.set(1, 1, s(9.0));
    assert_eq!(f(field.get(1, 1)), 1.0);
    assert_eq!(f(copy.get(1, 1)), 9.0);
}

#[test]
fn an_empty_field_can_be_made() {
    let field = Field2::filled(0, 7, s(1.0)).unwrap();
    assert_eq!(field.row_count(), 0);
    assert_eq!(field.col_count(), 7);
}

#[test]
fn a_field_that_cannot_be_addressed_is_refused() {
    assert!(Field2::filled(usize::MAX, 2, s(0.0)).is_none());
    assert!(Field2::filled(usize::MAX / 8, 2, s(0.0)).is_none());
    assert!(Field3::filled(usize::MAX / 16, 2, 2, s(0.0)).is_none());
    assert!(!can_address(usize::MAX, 1, 1));
    assert!(!can_address(1 << 31, 1 << 31, 1));
    assert!(can_address(10, 10, 101));
    assert!(can_address(0, 0, 0));
}

#[test]
fn a_filled_box_holds_the_value_everywhere() {
    let field = Field3::filled(2, 3, 4, s(-2.0)).unwrap();
    assert_eq!(field.row_count(), 2);
    assert_eq!(field.col_count(), 3);
    assert_eq!(field.depth_count(), 4);
    for i in 0..2 {
        for j in 0..3 {
            for k in 0..4 {
                assert_eq!(f(field.get(i, j, k)), -2.0);
            }
        }
    }
}

#[test]
fn setting_a_node_of_a_box_changes_that_node_only() {
    let mut field = Field3::filled(2, 3, 4, s(0.0)).unwrap();
    field.set(1, 2, 3, s(6.0));
    field.set(0, 2, 1, s(5.0));
    for i in 0..2 {
        for j in 0..3 {
            for k in 0..4 {
                let expected = match (i, j, k) {
                    (1, 2, 3) => 6.0,
                    (0, 2, 1) => 5.0,
                    _ => 0.0,
                };
                assert_eq!(f(field.get(i, j, k)), expected);
            }
        }
    }
}

#[test]
fn a_plane_is_stored_and_read_back() {
    let mut plane = Field2::filled(2, 3, s(0.0)).unwrap();
    for i in 0..2 {
        for j in 0..3 {
            plane.set(i, j, s((10 * i + j) as f64));
        }
    }
    let mut history = Field3::filled(2, 3, 4, s(-1.0)).unwrap();
    history.store_plane(2, &plane);
    for i in 0..2 {
        for j in 0..3 {
            for k in 0..4 {
                let expected = if k == 2 { (10 * i + j) as f64 } else { -1.0 };
                assert_eq!(f(history.get(i, j, k)), expected);
            }
        }
    }
    let back = history.plane(2);
    assert_eq!(back.row_count(), 2);
    assert_eq!(back.col_count(), 3);
    for i in 0..2 {
        for j in 0..3 {
            assert_eq!(f(back.get(i, j)), (10 * i + j) as f64);
        }
    }
    let untouched = history.plane(1);
    assert_eq!(f(untouched.get(1, 2)), -1.0);
}

#[test]
fn a_duplicate_box_is_independent_of_its_source() {
    let mut field = Field3::filled(2, 2, 2, s(1.0)).unwrap();
    field.set(1, 0, 1, s(3.0));
    let mut copy = field.duplicate();
    assert_eq!(f(copy.get(1, 0, 1)), 3.0);
    copy.set(0, 0, 0, s(8.0));
    assert_eq!(f(field.get(0, 0, 0)), 1.0);
}

#[test]
fn a_zone_map_keeps_its_zones() {
    let mut map = ZoneMap::filled(3, 2, 0).unwrap();
    assert_eq!(map.row_count(), 3);
    assert_eq!(map.col_count(), 2);
    assert_eq!(map.max_zone(), 0);
    assert!(!map.has_marked_zone());
    map.set(2, 1, 4);
    map.set(0, 0, 2);
    assert_eq!(map.get(2, 1), 4);
    assert_eq!(map.get(0, 0), 2);
    assert_eq!(map.get(1, 1), 0);
    assert_eq!(map.max_zone(), 4);
    assert!(map.has_marked_zone());
    let copy = map.duplicate();
    assert_eq!(copy.get(2, 1), 4);
    assert_eq!(copy.max_zone(), 4);
}

#[test]
fn a_zone_map_without_nodes_has_peak_zero() {
    let map = ZoneMap::filled(0, 3, 9).unwrap();
    assert_eq!(map.max_zone(), 0);
    assert!(!map.has_marked_zone());
}

#[test]
fn a_zone_map_holds_large_zone_numbers() {
    let mut map = ZoneMap::filled(1, 1, usize::MAX).unwrap();
    assert_eq!(map.get(0, 0), usize::MAX);
    assert_eq!(map.max_zone(), usize::MAX);
    map.set(0, 0, 1);
    assert_eq!(map.max_zone(), 1);
}

#[test]
fn the_mesh_places_its_nodes() {
    let mesh = CylindricalMesh::new(s(1.0), s(0.5), 4, 3, 12);
    assert_eq!(mesh.radial_node(0), RadialNode::Axis);
    assert_eq!(mesh.radial_node(1), RadialNode::Interior);
    assert_eq!(mesh.radial_node(2), RadialNode::Interior);
    assert_eq!(mesh.radial_node(3), RadialNode::OuterWall);
    assert_eq!(mesh.axial_node(0), AxialNode::Bottom);
    assert_eq!(mesh.axial_node(1), AxialNode::Interior);
    assert_eq!(mesh.axial_node(2), AxialNode::Top);
    assert!(mesh.is_gas_exposed(3, 1));
    assert!(mesh.is_gas_exposed(1, 0));
    assert!(mesh.is_gas_exposed(1, 2));
    assert!(mesh.is_gas_exposed(0, 0));
    assert!(!mesh.is_gas_exposed(1, 1));
    assert!(!mesh.is_gas_exposed(0, 1));
}

#[test]
fn the_mesh_rejects_a_zone_map_of_another_shape() {
    let mut mesh = CylindricalMesh::new(s(1.0), s(0.5), 4, 3, 12);
    let wrong = ZoneMap::filled(3, 4, 0).unwrap();
    assert_eq!(mesh.set_zones(wrong), Err(ZoneShapeError::ShapeMismatch { rows: 3, cols: 4 }));
    assert!(mesh.zones.is_none());
    let mut right = ZoneMap::filled(4, 3, 0).unwrap();
    right.set(1, 2, 1);
    assert_eq!(mesh.set_zones(right), Ok(()));
    assert_eq!(mesh.zones.as_ref().unwrap().get(1, 2), 1);
    let copy = mesh.duplicate();
    assert_eq!(copy.nr, 4);
    assert_eq!(copy.nz, 3);
    assert_eq!(copy.ntheta, 12);
    assert_eq!(copy.zones.as_ref().unwrap().get(1, 2), 1);
}
