use pulse_stream::buffering::{set_buffering_attribute, BufferAttr};

#[test]
fn buffer_metrics_for_stereo_s16() {
    let battr = set_buffering_attribute(1024, 4);
    assert_eq!(
        battr,
        BufferAttr {
            maxlength: u32::MAX,
            tlength: 4096,
            prebuf: u32::MAX,
            minreq: 1024,
            fragsize: 1024,
        }
    );
}

#[test]
fn buffer_metrics_round_the_quarter_down() {
    let battr = set_buffering_attribute(3, 2);
    assert_eq!(battr.tlength, 6);
    assert_eq!(battr.minreq, 1);
    assert_eq!(battr.fragsize, 1);
}

#[test]
fn buffer_metrics_for_no_latency() {
    let battr = set_buffering_attribute(0, 8);
    assert_eq!(battr.tlength, 0);
    assert_eq!(battr.minreq, 0);
    assert_eq!(battr.maxlength, u32::MAX);
    assert_eq!(battr.prebuf, u32::MAX);
}
