#[test]
fn it_works() {
    let result = pylon_frames::add(2, 2);
    assert_eq!(result, 4);
}

#[test]
fn add_takes_zero_and_the_largest_size() {
    assert_eq!(pylon_frames::add(0, 0), 0);
    assert_eq!(pylon_frames::add(usize::MAX, 0), usize::MAX);
    assert_eq!(pylon_frames::add(usize::MAX - 1, 1), usize::MAX);
}
