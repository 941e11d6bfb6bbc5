use dpdk_net::mbuf::{capacity, extended_lengths, len_arg, shrunk_lengths};

#[test]
fn mbuf_call_lengths() {
    assert_eq!(len_arg(0), Some(0));
    assert_eq!(len_arg(1500), Some(1500));
    assert_eq!(len_arg(65535), Some(65535));
    assert_eq!(len_arg(65536), None);
}

#[test]
fn buffer_room_and_resizing() {
    assert_eq!(capacity(100, 1948), 2048);
    assert_eq!(extended_lengths(100, 100, 1948, 60), (160, 160));
    assert_eq!(extended_lengths(0, 0, 2048, 2048), (2048, 2048));
    assert_eq!(shrunk_lengths(100, 120, 30), (70, 90));
    assert_eq!(shrunk_lengths(10, 120, 30), (0, 90));
    assert_eq!(shrunk_lengths(10, 5, 30), (0, 0));
}
