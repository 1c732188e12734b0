use minus::stream::OutStream;

#[test]
fn a_buffer_in_memory_is_no_terminal() {
    assert!(!OutStream::Vector(Vec::new()).is_tty());
    assert!(!OutStream::Vector(vec![1, 2, 3]).is_tty());
}

#[test]
fn a_buffer_in_memory_takes_every_byte() {
    let mut out = OutStream::Vector(vec![1]);
    assert_eq!(out.write(&[2, 3]).unwrap(), 2);
    assert_eq!(out.write(&[]).unwrap(), 0);
    assert_eq!(out.write(&[4]).unwrap(), 1);
    assert!(out.flush().is_ok());
    match out {
        OutStream::Vector(bytes) => assert_eq!(bytes, vec![1, 2, 3, 4]),
        OutStream::SOut(_) => panic!("the stream changed its kind"),
    }
}

#[test]
fn standard_output_becomes_a_stream() {
    let mut out = OutStream::from(std::io::stdout());
    assert!(matches!(out, OutStream::SOut(_)));
    // Whether it is a terminal depends on how the tests are run.
    let _ = out.is_tty();
    assert_eq!(out.write(&[]).unwrap_or(0), 0);
    let _ = out.flush();
    assert!(matches!(out, OutStream::SOut(_)));
}
