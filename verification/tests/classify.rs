use triangle_origin::classify::classify;
use triangle_origin::classify::ClassifyError;
use triangle_origin::geometry::Triangle;
use triangle_origin::geometry::Vertex;

#[test]
fn known_example_a_contains() {
    let t = Triangle::new_from_ints(-340, 495, -153, -910, 835, -947);
    assert_eq!(classify(&t), Ok(true));
}

#[test]
fn known_example_b_does_not_contain() {
    let t = Triangle::new_from_ints(-175, 41, -421, -714, 574, -645);
    assert_eq!(classify(&t), Ok(false));
}

#[test]
fn permutations_agree_on_example_a() {
    let a = Vertex::new(-340, 495);
    let b = Vertex::new(-153, -910);
    let c = Vertex::new(835, -947);
    let orders = [
        Triangle::new(a, b, c),
        Triangle::new(a, c, b),
        Triangle::new(b, a, c),
        Triangle::new(b, c, a),
        Triangle::new(c, a, b),
        Triangle::new(c, b, a),
    ];
    for t in orders.iter() {
        assert_eq!(classify(t), Ok(true));
    }
}

#[test]
fn permutations_agree_on_example_b() {
    let a = Vertex::new(-175, 41);
    let b = Vertex::new(-421, -714);
    let c = Vertex::new(574, -645);
    let orders = [
        Triangle::new(a, b, c),
        Triangle::new(a, c, b),
        Triangle::new(b, a, c),
        Triangle::new(b, c, a),
        Triangle::new(c, a, b),
        Triangle::new(c, b, a),
    ];
    for t in orders.iter() {
        assert_eq!(classify(t), Ok(false));
    }
}

#[test]
fn vertex_at_origin_contains() {
    let t = Triangle::new_from_ints(0, 0, 5, 1, 1, 5);
    assert_eq!(classify(&t), Ok(true));
}

#[test]
fn boundary_edge_contains() {
    let t = Triangle::new_from_ints(-2, 0, 2, 0, 0, 5);
    assert_eq!(classify(&t), Ok(true));
}

#[test]
fn collinear_reported_degenerate() {
    let t = Triangle::new_from_ints(0, 0, 1, 1, 2, 2);
    assert_eq!(classify(&t), Err(ClassifyError::Degenerate));
}

#[test]
fn duplicate_vertex_reported_degenerate() {
    let t = Triangle::new_from_ints(1, 2, 1, 2, 3, 4);
    assert_eq!(classify(&t), Err(ClassifyError::Degenerate));
}

#[test]
fn out_of_range_coordinate_reported() {
    let t = Triangle::new_from_ints(1001, 0, 1, 1, 2, 5);
    assert_eq!(classify(&t), Err(ClassifyError::OutOfRange));
    let u = Triangle::new_from_ints(3, 7, 9, -1001, 2, 5);
    assert_eq!(classify(&u), Err(ClassifyError::OutOfRange));
}

#[test]
fn all_x_positive_excluded() {
    let t = Triangle::new_from_ints(1, 1, 5, 2, 3, 9);
    assert_eq!(classify(&t), Ok(false));
}

#[test]
fn all_x_negative_excluded() {
    let t = Triangle::new_from_ints(-1, 1, -5, 2, -3, 9);
    assert_eq!(classify(&t), Ok(false));
}

#[test]
fn all_y_positive_excluded() {
    let t = Triangle::new_from_ints(-4, 1, 5, 2, 3, 9);
    assert_eq!(classify(&t), Ok(false));
}

#[test]
fn all_y_negative_excluded() {
    let t = Triangle::new_from_ints(-4, -1, 5, -2, 3, -9);
    assert_eq!(classify(&t), Ok(false));
}

#[test]
fn extreme_corners_contain_origin() {
    let t = Triangle::new_from_ints(-1000, -1000, 1000, -1000, 0, 1000);
    assert_eq!(classify(&t), Ok(true));
}
