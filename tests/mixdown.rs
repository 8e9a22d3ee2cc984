use yada_core::mixdown::{push_interleaved_i16_mono, push_interleaved_u16_mono};

#[test]
fn stereo_full_scale_does_not_wrap() {
    let mut buf = Vec::new();
    push_interleaved_i16_mono(&mut buf, &[32767, 32767], 2);
    assert_eq!(buf, vec![32767]);
    let mut low = Vec::new();
    push_interleaved_i16_mono(&mut low, &[-32768, -32768], 2);
    assert_eq!(low, vec![-32768]);
}

#[test]
fn mono_passes_through_and_appends() {
    let mut buf = vec![7];
    push_interleaved_i16_mono(&mut buf, &[1, -2, 3], 1);
    assert_eq!(buf, vec![7, 1, -2, 3]);
    let mut zero = Vec::new();
    push_interleaved_i16_mono(&mut zero, &[5, 6], 0);
    assert_eq!(zero, vec![5, 6]);
}

#[test]
fn signed_average_rounds_toward_zero_and_drops_partial_frame() {
    let mut buf = Vec::new();
    push_interleaved_i16_mono(&mut buf, &[-4, 0, 0, 4, 1, 0, 9], 3);
    assert_eq!(buf, vec![-1, 1]);
}

#[test]
fn unsigned_maps_to_signed_range() {
    let mut buf = Vec::new();
    push_interleaved_u16_mono(&mut buf, &[65535, 0, 32768], 1);
    assert_eq!(buf, vec![32767, -32767, 0]);
}

#[test]
fn unsigned_stereo_average() {
    let mut buf = Vec::new();
    push_interleaved_u16_mono(&mut buf, &[0, 65535, 65535, 65535, 1], 2);
    assert_eq!(buf, vec![0, 32767]);
}
