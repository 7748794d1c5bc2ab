use bongoknob::LineFramer;

#[test]
fn two_records_in_one_chunk_come_out_in_order() {
    let mut f = LineFramer::new();
    let out = f.feed(b"{\"p\":1}\n{\"p\":2}\n");
    assert_eq!(out, vec![b"{\"p\":1}\n".to_vec(), b"{\"p\":2}\n".to_vec()]);
    assert_eq!(f.pending(), 0);
}

#[test]
fn a_record_may_arrive_in_pieces() {
    let mut f = LineFramer::new();
    assert_eq!(f.feed(b"{\"p\""), Vec::<Vec<u8>>::new());
    assert_eq!(f.pending(), 4);
    assert_eq!(f.feed(b":1}"), Vec::<Vec<u8>>::new());
    assert_eq!(f.pending(), 7);
    let out = f.feed(b"\n{\"idle\"");
    assert_eq!(out, vec![b"{\"p\":1}\n".to_vec()]);
    assert_eq!(f.pending(), 7);
    let out = f.feed(b":3}\n");
    assert_eq!(out, vec![b"{\"idle\":3}\n".to_vec()]);
    assert_eq!(f.pending(), 0);
}

#[test]
fn empty_chunk_and_empty_records() {
    let mut f = LineFramer::new();
    assert_eq!(f.feed(b""), Vec::<Vec<u8>>::new());
    assert_eq!(f.feed(b"\n\nab"), vec![b"\n".to_vec(), b"\n".to_vec()]);
    assert_eq!(f.pending(), 2);
    assert_eq!(f.feed(b"\n"), vec![b"ab\n".to_vec()]);
}
