use fslock::fmt::{pid_stamp, Adapter, BUF_SIZE};
use fslock::Writer;

#[test]
fn stamp_is_digits_and_newline() {
    assert_eq!(pid_stamp(0), b"0\n".to_vec());
    assert_eq!(pid_stamp(7), b"7\n".to_vec());
    assert_eq!(pid_stamp(10), b"10\n".to_vec());
    assert_eq!(pid_stamp(4711), b"4711\n".to_vec());
    assert_eq!(pid_stamp(1000000), b"1000000\n".to_vec());
    assert_eq!(pid_stamp(u32::MAX), b"4294967295\n".to_vec());
}

#[test]
fn stamp_matches_the_standard_formatting() {
    for pid in [0u32, 1, 9, 10, 99, 100, 12345, 4194304, 2147483647, 4294967295] {
        assert_eq!(pid_stamp(pid), format!("{}\n", pid).into_bytes());
    }
}

#[test]
fn stamp_is_one_piece() {
    assert_eq!(Writer(3).write_pid(4711), vec![b"4711\n".to_vec()]);
    assert_eq!(Writer(3).write_pid(u32::MAX), vec![b"4294967295\n".to_vec()]);
}

#[test]
fn short_text_is_one_piece() {
    assert_eq!(Writer(3).write_fmt("12345\n"), vec![b"12345\n".to_vec()]);
}

#[test]
fn empty_text_is_no_piece() {
    assert_eq!(Writer(3).write_fmt(""), Vec::<Vec<u8>>::new());
}

#[test]
fn text_of_buffer_size_is_one_piece() {
    let text = "0123456789abcdef";
    assert_eq!(text.len(), BUF_SIZE);
    assert_eq!(Writer(3).write_fmt(text), vec![text.as_bytes().to_vec()]);
}

#[test]
fn long_text_is_cut_at_the_buffer_size() {
    let text = "0123456789abcdefghijklmnopqrstuvwxyz";
    assert_eq!(
        Writer(3).write_fmt(text),
        vec![b"0123456789abcdef".to_vec(), b"ghijklmnopqrstuv".to_vec(), b"wxyz".to_vec()]
    );
    let text = "0123456789abcdef0123456789abcdef";
    assert_eq!(
        Writer(3).write_fmt(text),
        vec![b"0123456789abcdef".to_vec(), b"0123456789abcdef".to_vec()]
    );
}

#[test]
fn adapter_gathers_several_writes() {
    let mut adapter = Adapter::new(5);
    assert_eq!(adapter.desc(), 5);
    adapter.write_str("4711");
    adapter.write_str("\n");
    assert_eq!(adapter.finish(), vec![b"4711\n".to_vec()]);

    let mut adapter = Adapter::new(5);
    adapter.write_str("0123456789");
    adapter.write_str("abcdefghij");
    adapter.write_bytes(b"");
    adapter.write_bytes(b"klmnopqrstuv");
    assert_eq!(
        adapter.finish(),
        vec![b"0123456789abcdef".to_vec(), b"ghijklmnopqrstuv".to_vec()]
    );
}

#[test]
fn seventeen_bytes_are_one_full_piece_and_one_byte() {
    let mut adapter = Adapter::new(5);
    adapter.write_str("0123456789abcdefg");
    assert_eq!(adapter.finish(), vec![b"0123456789abcdef".to_vec(), b"g".to_vec()]);
}

#[test]
fn flush_lets_a_short_piece_out() {
    let mut adapter = Adapter::new(5);
    adapter.flush();
    adapter.write_str("abc");
    adapter.flush();
    adapter.flush();
    adapter.write_str("de");
    assert_eq!(adapter.finish(), vec![b"abc".to_vec(), b"de".to_vec()]);
}
