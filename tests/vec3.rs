use raytracer::vec3::Vec3;

#[test]
fn vec3_test_new() {
    let vec: Vec3 = Vec3::new([1, 2, 3]);
    assert_eq!(vec.index(0), 1);
    assert_eq!(vec.index(1), 2);
    assert_eq!(vec.index(2), 3);
}

#[test]
fn vec3_test_dot() {
    let vec1: Vec3 = Vec3::new([1, 2, 3]);
    let vec2: Vec3 = Vec3::new([4, 5, 6]);
    let dot_product: i64 = vec1.dot(&vec2);
    assert_eq!(dot_product, 32);
}

#[test]
fn vec3_test_cross() {
    let vec1: Vec3 = Vec3::new([1, 2, 3]);
    let vec2: Vec3 = Vec3::new([4, 5, 6]);
    let cross_product: Vec3 = vec1.cross(&vec2);
    assert_eq!(cross_product, Vec3::new([-3, 6, -3]));
}

#[test]
fn vec3_test_random() {
    let vec: Vec3 = Vec3::random();
    assert_eq!(vec.data.len(), 3);
}

#[test]
fn vec3_test_from_iter() {
    let vec: Vec3 = Vec3::from_iter(vec![1, 2, 3]);
    assert_eq!(vec, Vec3::new([1, 2, 3]));
}

#[test]
fn vec3_test_index() {
    let vec: Vec3 = Vec3::new([1, 2, 3]);
    assert_eq!(vec.index(0), 1);
    assert_eq!(vec.index(1), 2);
    assert_eq!(vec.index(2), 3);
}

#[test]
fn vec3_test_index_mut() {
    let mut vec: Vec3 = Vec3::new([1, 2, 3]);
    *vec.index_mut(0) = 4;
    *vec.index_mut(1) = 5;
    *vec.index_mut(2) = 6;
    assert_eq!(vec, Vec3::new([4, 5, 6]));
}

#[test]
fn vec3_test_add_vec() {
    let vec1: Vec3 = Vec3::new([1, 2, 3]);
    let vec2: Vec3 = Vec3::new([4, 5, 6]);
    let sum: Vec3 = vec1.add(vec2);
    assert_eq!(sum, Vec3::new([5, 7, 9]));
}

#[test]
fn vec3_test_sub_vec() {
    let vec1: Vec3 = Vec3::new([4, 5, 6]);
    let vec2: Vec3 = Vec3::new([1, 2, 3]);
    let diff: Vec3 = vec1.sub(vec2);
    assert_eq!(diff, Vec3::new([3, 3, 3]));
}

#[test]
fn vec3_test_mul_scalar() {
    let vec: Vec3 = Vec3::new([1, 2, 3]);
    let scalar: i64 = 2;
    let mul: Vec3 = vec.scale(scalar);
    assert_eq!(mul, Vec3::new([2, 4, 6]));
}

#[test]
fn vec3_test_div_scalar() {
    let vec: Vec3 = Vec3::new([4, 6, 8]);
    let scalar: i64 = 2;
    let div: Vec3 = vec.div(scalar);
    assert_eq!(div, Vec3::new([2, 3, 4]));
}

#[test]
fn vec3_test_mul_vec() {
    let vec1: Vec3 = Vec3::new([1, 2, 3]);
    let vec2: Vec3 = Vec3::new([4, 5, 6]);
    let mul: Vec3 = vec1.mul(vec2);
    assert_eq!(mul, Vec3::new([4, 10, 18]));
}
