use hisi_hal::qdec::{Qdec, QdecOp};

#[test]
fn count_is_signed_16_bit() {
    let (q, ops) = Qdec::new();
    assert_eq!(ops, vec![QdecOp::Enable, QdecOp::Start]);
    assert_eq!(q.read_count(5), 5);
    assert_eq!(q.read_count(0xFFFF), -1);
    assert_eq!(q.read_count(0x8000), -32768);
    assert_eq!(q.read_count(0x7FFF), 32767);
    assert_eq!(q.read_error_count(3), 3);
    assert_eq!(q.stop(), QdecOp::Stop);
}
