use cloud_session::devices::remote_device_positions;

#[test]
fn local_device_is_left_out() {
    let ids = vec![vec![1, 2], vec![9], vec![1, 2, 3], vec![9]];
    assert_eq!(remote_device_positions(&ids, &vec![9]), vec![0, 2]);
    assert_eq!(remote_device_positions(&ids, &vec![1, 2]), vec![1, 2, 3]);
    assert_eq!(remote_device_positions(&ids, &vec![7]), vec![0, 1, 2, 3]);
    assert_eq!(remote_device_positions(&vec![], &vec![7]), Vec::<usize>::new());
}
