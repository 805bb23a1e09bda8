use xcrypt::scratch::ScratchBuffer;

#[test]
fn acquire_gives_the_size_asked_for() {
    let scratch = ScratchBuffer::acquire(32768);
    assert_eq!(scratch.len(), 32768);
}

#[test]
fn acquire_gives_zero_bytes() {
    let bytes = ScratchBuffer::acquire(32768).into_bytes();
    assert_eq!(bytes.len(), 32768);
    assert!(bytes.iter().all(|b| *b == 0));
}

#[test]
fn acquire_of_no_bytes() {
    let scratch = ScratchBuffer::acquire(0);
    assert_eq!(scratch.len(), 0);
    assert_eq!(scratch.into_bytes(), Vec::<u8>::new());
}

#[test]
fn each_buffer_is_its_own() {
    let mut first = ScratchBuffer::acquire(16).into_bytes();
    first[0] = 7;
    let second = ScratchBuffer::acquire(16).into_bytes();
    assert_eq!(second, vec![0u8; 16]);
}
