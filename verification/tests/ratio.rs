use triangle_origin::geometry::line_through;
use triangle_origin::geometry::LineEquation;
use triangle_origin::geometry::Vertex;
use triangle_origin::ratio::ratio;
use triangle_origin::ratio::Ratio;

#[test]
fn ratio_keeps_positive_denominator() {
    assert_eq!(ratio(3, 4), Ratio { num: 3, den: 4 });
    assert_eq!(ratio(1, -2), Ratio { num: -1, den: 2 });
    assert_eq!(ratio(-5, -3), Ratio { num: 5, den: 3 });
}

#[test]
fn ratio_add_is_exact() {
    let r = ratio(1, 2).add(ratio(1, 3));
    assert_eq!(r, Ratio { num: 5, den: 6 });
    assert!(r.eq_value(&ratio(5, 6)));
}

#[test]
fn ratio_sub_is_exact() {
    let r = ratio(1, 2).sub(ratio(1, 3));
    assert_eq!(r, Ratio { num: 1, den: 6 });
}

#[test]
fn ratio_mul_is_exact() {
    let r = ratio(2, 3).mul(ratio(-3, 5));
    assert_eq!(r, Ratio { num: -6, den: 15 });
    assert!(r.eq_value(&ratio(-2, 5)));
}

#[test]
fn ratio_div_is_exact() {
    let q = ratio(1, 2).div(ratio(3, 4)).unwrap();
    assert_eq!(q, Ratio { num: 4, den: 6 });
    assert!(q.eq_value(&ratio(2, 3)));
    let negative = ratio(1, 2).div(ratio(-3, 4)).unwrap();
    assert!(negative.eq_value(&ratio(-2, 3)));
}

#[test]
fn division_by_zero_value_is_undefined() {
    assert_eq!(ratio(7, 9).div(ratio(0, 5)), None);
}

#[test]
fn ratio_comparisons_are_exact() {
    assert!(ratio(0, 17).is_zero());
    assert!(ratio(-1, 1000).is_negative());
    assert!(ratio(1, 1000).is_positive());
    assert!(ratio(1, 3).lt(&ratio(1, 2)));
    assert!(!ratio(1, 2).lt(&ratio(1, 2)));
    assert!(ratio(2, 4).eq_value(&ratio(1, 2)));
    assert!(!ratio(2, 4).eq_value(&ratio(1, 3)));
}

#[test]
fn line_through_detects_vertical() {
    let l = line_through(&Vertex::new(3, 1), &Vertex::new(3, 5));
    assert_eq!(l, LineEquation::Vertical { x: 3 });
}

#[test]
fn line_through_slanted_line() {
    let l = line_through(&Vertex::new(0, 1), &Vertex::new(2, 5));
    match l {
        LineEquation::Slant { slope, intercept } => {
            assert!(slope.eq_value(&ratio(2, 1)));
            assert!(intercept.eq_value(&ratio(1, 1)));
        },
        LineEquation::Vertical { .. } => panic!("expected a slanted line"),
    }
}

#[test]
fn line_through_orientation_does_not_matter() {
    let l = line_through(&Vertex::new(2, 5), &Vertex::new(0, 1));
    match l {
        LineEquation::Slant { slope, intercept } => {
            assert!(slope.eq_value(&ratio(2, 1)));
            assert!(intercept.eq_value(&ratio(1, 1)));
        },
        LineEquation::Vertical { .. } => panic!("expected a slanted line"),
    }
}
