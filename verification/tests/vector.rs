use vec3::vector::Vec3f;

fn v3(a: f32, b: f32, c: f32) -> Vec3f {
    Vec3f::new(a.to_bits(), b.to_bits(), c.to_bits())
}

fn floats(v: Vec3f) -> [f32; 3] {
    let a = v.to_array();
    [f32::from_bits(a[0]), f32::from_bits(a[1]), f32::from_bits(a[2])]
}

fn add_bits(x: u32, y: u32) -> u32 {
    (f32::from_bits(x) + f32::from_bits(y)).to_bits()
}

fn sub_bits(x: u32, y: u32) -> u32 {
    (f32::from_bits(x) - f32::from_bits(y)).to_bits()
}

fn mul_bits(x: u32, y: u32) -> u32 {
    (f32::from_bits(x) * f32::from_bits(y)).to_bits()
}

fn neg_bits(x: u32) -> u32 {
    (-f32::from_bits(x)).to_bits()
}

#[test]
fn basis_cross_products_each_other() {
    let b0 = Vec3f::basis_0();
    let b1 = Vec3f::basis_1();
    let b2 = Vec3f::basis_2();
    assert_eq!(floats(b2), floats(b0.cross(b1, mul_bits, sub_bits)));
    assert_eq!(floats(b0), floats(b1.cross(b2, mul_bits, sub_bits)));
    assert_eq!(floats(b1), floats(b2.cross(b0, mul_bits, sub_bits)));
    assert_eq!(floats(b2.map(neg_bits)), floats(b1.cross(b0, mul_bits, sub_bits)));
    assert_eq!(floats(b0.map(neg_bits)), floats(b2.cross(b1, mul_bits, sub_bits)));
    assert_eq!(floats(b1.map(neg_bits)), floats(b0.cross(b2, mul_bits, sub_bits)));
}

#[test]
fn add_sub_basics() {
    let a = v3(1.0f32, 2.0f32, 3.0f32);
    let b = v3(4.0f32, 5.0f32, 6.0f32);
    assert_eq!(floats(a.zip_map(b, add_bits)), floats(v3(5.0f32, 7.0f32, 9.0f32)));
    let mut c = b;
    c.zip_map_assign(a, sub_bits);
    assert_eq!(floats(c), floats(v3(3.0f32, 3.0f32, 3.0f32)));
    assert_eq!(floats(b.zip_map(c, sub_bits)), floats(a));
    c.zip_map_assign(a, add_bits);
    assert_eq!(floats(c), floats(b));
}

#[test]
fn test_from_into() {
    let array: [f32; 3] = [1.0, 2.0, 3.0];
    let bits: [u32; 3] = [array[0].to_bits(), array[1].to_bits(), array[2].to_bits()];

    let vector: Vec3f = Vec3f::from_array(bits);
    let converted_array: [u32; 3] = vector.to_array();

    assert_eq!(bits, converted_array);
    assert_eq!(array, floats(vector));
}

#[test]
fn test_index() {
    let vector = v3(1.0, 2.0, 3.0);

    assert_eq!(f32::from_bits(vector.index(0)), 1.0);
    assert_eq!(f32::from_bits(vector.index(1)), 2.0);
    assert_eq!(f32::from_bits(vector.index(2)), 3.0);
}

#[test]
fn test_index_mut() {
    let mut vector = v3(1.0, 2.0, 3.0);

    vector.set(0, 4.0f32.to_bits());
    vector.set(1, 5.0f32.to_bits());
    vector.set(2, 6.0f32.to_bits());

    assert_eq!(f32::from_bits(vector.index(0)), 4.0);
    assert_eq!(f32::from_bits(vector.index(1)), 5.0);
    assert_eq!(f32::from_bits(vector.index(2)), 6.0);
}

#[test]
fn test_unary_negation() {
    let v1 = v3(1.0, 2.0, 3.0);

    let result = v1.map(neg_bits);
    let expected_result = v3(-1.0, -2.0, -3.0);

    assert_eq!(floats(result), floats(expected_result));
}

#[test]
fn test_componentwise_addition() {
    let v1 = v3(1.0, 2.0, 3.0);
    let v2 = v3(4.0, 5.0, 6.0);

    let result = v1.zip_map(v2, add_bits);
    let expected_result = v3(5.0, 7.0, 9.0);

    assert_eq!(floats(result), floats(expected_result));
}

#[test]
fn test_componentwise_subtraction() {
    let v1 = v3(4.0, 5.0, 6.0);
    let v2 = v3(1.0, 2.0, 3.0);

    let result = v1.zip_map(v2, sub_bits);
    let expected_result = v3(3.0, 3.0, 3.0);

    assert_eq!(floats(result), floats(expected_result));
}

#[test]
fn test_cross_product() {
    let v1 = v3(1.0, 2.0, 3.0);
    let v2 = v3(4.0, 5.0, 6.0);

    let cross_product1 = v1.cross(v2, mul_bits, sub_bits);
    let expected_cross_product1 = v3(-3.0, 6.0, -3.0);

    assert_eq!(floats(cross_product1), floats(expected_cross_product1));

    let v3a = v3(-2.0, 3.0, -1.0);
    let v4 = v3(4.0, -1.0, 5.0);

    let cross_product2 = v3a.cross(v4, mul_bits, sub_bits);
    let expected_cross_product2 = v3(14.0, 6.0, -10.0);

    assert_eq!(floats(cross_product2), floats(expected_cross_product2));
}

#[test]
fn new_reads_back_componentwise() {
    let v = Vec3f::new(11, 22, 33);
    assert_eq!(v.index(0), 11);
    assert_eq!(v.index(1), 22);
    assert_eq!(v.index(2), 33);
}

#[test]
fn splat_fills_all_components() {
    let v = Vec3f::splat(2.5f32.to_bits());
    assert_eq!(floats(v), [2.5, 2.5, 2.5]);
}

#[test]
fn indexed_write_leaves_other_components() {
    let mut v = v3(1.0, 2.0, 3.0);
    v.set(1, 9.0f32.to_bits());
    assert_eq!(f32::from_bits(v.index(0)), 1.0);
    assert_eq!(f32::from_bits(v.index(1)), 9.0);
    assert_eq!(f32::from_bits(v.index(2)), 3.0);
}

#[test]
fn array_round_trip_keeps_non_finite_bits() {
    let bits: [u32; 3] = [f32::NAN.to_bits(), f32::INFINITY.to_bits(), (-0.0f32).to_bits()];
    let v = Vec3f::from_array(bits);
    assert_eq!(v.to_array(), bits);
    assert!(f32::from_bits(v.index(0)).is_nan());
    assert!(f32::from_bits(v.index(1)).is_infinite());
}

#[test]
fn add_then_sub_round_trips_exactly() {
    let a = v3(1.5, 2.25, -3.5);
    let b = v3(0.5, 0.25, 4.0);
    let back = a.zip_map(b, add_bits).zip_map(b, sub_bits);
    assert_eq!(floats(back), floats(a));
    let other_way = a.zip_map(b, sub_bits).zip_map(b, add_bits);
    assert_eq!(floats(other_way), floats(a));
}

#[test]
fn reduce_folds_left_to_right() {
    let v = v3(10.0, 3.0, 2.0);
    let folded = v.reduce(sub_bits);
    assert_eq!(f32::from_bits(folded), (10.0f32 - 3.0f32) - 2.0f32);
    assert_eq!(f32::from_bits(folded), 5.0);
}

#[test]
fn default_is_zero_vector() {
    let v = Vec3f::default();
    assert_eq!(floats(v), [0.0, 0.0, 0.0]);
}
