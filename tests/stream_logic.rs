use cfile::buffer;
use cfile::read_to_end::{finish_read_to_end, plan_read_to_end, ReadToEndPlan};
use cfile::stream::{
    check_open_args, check_path, check_status, has_nul, open_outcome, position_outcome, read_exact_outcome,
    read_outcome, seek_directive, write_all_outcome, SeekFrom, Whence, APPEND_READ,
    RANDOM_ACCESS_MODE, TRUNCATE_RANDOM_ACCESS_MODE,
};
use cfile::Error;

#[test]
fn buffer_is_zeroed() {
    assert_eq!(buffer(20), vec![0u8; 20]);
    assert!(buffer(0).is_empty());
}

#[test]
fn errno_of_each_variant() {
    assert_eq!(Error::Errno(2).errno(), 2);
    assert_eq!(Error::WriteError(3, 5).errno(), 5);
    assert_eq!(Error::BadPath.errno(), 0);
    assert_eq!(Error::EndOfFile(7).errno(), 0);
}

#[test]
fn fixed_messages() {
    assert_eq!(Error::BadPath.fixed_message(), Some("The path supplied is invalid\0"));
    assert_eq!(Error::EndOfFile(1).fixed_message(), Some("The end of the file was reached\0"));
    assert_eq!(Error::Errno(2).fixed_message(), None);
    assert_eq!(Error::WriteError(0, 1).fixed_message(), None);
}

#[test]
fn open_arguments_reject_nul() {
    assert!(!has_nul(b"data.txt"));
    assert!(has_nul(b"da\0ta.txt"));
    assert!(has_nul(b"\0"));
    assert!(!has_nul(b""));
    assert_eq!(check_open_args(b"data.txt", TRUNCATE_RANDOM_ACCESS_MODE.as_bytes()), Ok(()));
    assert_eq!(check_open_args(b"da\0ta.txt", APPEND_READ.as_bytes()), Err(Error::BadPath));
    assert_eq!(check_open_args(b"data.txt", b"r\0"), Err(Error::BadPath));
    assert_eq!(check_path(b"data.txt"), Ok(()));
    assert_eq!(check_path(b"data\0"), Err(Error::BadPath));
}

#[test]
fn mode_strings() {
    assert_eq!(RANDOM_ACCESS_MODE, "rb+");
    assert_eq!(APPEND_READ, "a+");
    assert_eq!(TRUNCATE_RANDOM_ACCESS_MODE, "wb+");
}

#[test]
fn status_codes() {
    assert_eq!(check_status(0, 13), Ok(()));
    assert_eq!(check_status(-1, 13), Err(Error::Errno(13)));
    assert_eq!(check_status(5, 0), Err(Error::Errno(0)));
}

#[test]
fn positions() {
    assert_eq!(position_outcome(12, 9), Ok(12));
    assert_eq!(position_outcome(0, 9), Ok(0));
    assert_eq!(position_outcome(-1, 29), Err(Error::Errno(29)));
}

#[test]
fn write_all_counts() {
    assert_eq!(write_all_outcome(12, 12, 0), Ok(()));
    assert_eq!(write_all_outcome(12, 4, 1), Err(Error::WriteError(4, 1)));
    assert_eq!(write_all_outcome(0, 0, 0), Ok(()));
}

#[test]
fn read_counts() {
    assert_eq!(read_outcome(20, 20, false, 5), Ok(20));
    assert_eq!(read_outcome(20, 12, true, 5), Ok(12));
    assert_eq!(read_outcome(20, 12, false, 5), Err(Error::Errno(5)));
}

#[test]
fn read_exact_short_at_end_of_file() {
    // twelve bytes "Howdy folks!" in the file, a buffer of twenty
    assert_eq!("Howdy folks!".len(), 12);
    assert_eq!(read_exact_outcome(20, 12, true, 0), Err(Error::EndOfFile(12)));
}

#[test]
fn read_exact_outcomes() {
    assert_eq!(read_exact_outcome(20, 20, false, 0), Ok(()));
    assert_eq!(read_exact_outcome(20, 20, true, 0), Ok(()));
    assert_eq!(read_exact_outcome(20, 0, true, 0), Err(Error::EndOfFile(0)));
    assert_eq!(read_exact_outcome(20, 3, false, 5), Err(Error::Errno(5)));
    for got in 0..20usize {
        assert!(read_exact_outcome(20, got, true, 0).is_err());
        assert!(read_exact_outcome(20, got, false, 0).is_err());
    }
}

#[test]
fn read_to_end_from_middle() {
    // file of 12 bytes, read begins at 1, buffer of 20
    let mut buf = buffer(20);
    let plan = plan_read_to_end(Ok(1), Ok(12), &mut buf);
    assert_eq!(plan, ReadToEndPlan::Read { from: 1, to_read: 11 });
    assert_eq!(buf.len(), 20);
    assert_eq!(finish_read_to_end(11, Err(Error::EndOfFile(11))), Ok(11));
    assert_eq!(finish_read_to_end(11, Ok(())), Ok(11));
}

#[test]
fn read_to_end_grows_buffer() {
    let mut buf = vec![7u8, 8, 9];
    let plan = plan_read_to_end(Ok(4), Ok(12), &mut buf);
    assert_eq!(plan, ReadToEndPlan::Read { from: 4, to_read: 8 });
    assert_eq!(buf, vec![7u8, 8, 9, 0, 0, 0, 0, 0]);
    assert_eq!(finish_read_to_end(8, Ok(())), Ok(8));
}

#[test]
fn read_to_end_at_end_of_file() {
    let mut buf = vec![1u8, 2, 3];
    assert_eq!(plan_read_to_end(Ok(12), Ok(12), &mut buf), ReadToEndPlan::Done(Ok(0)));
    assert_eq!(buf, vec![1u8, 2, 3]);
    let mut empty: Vec<u8> = Vec::new();
    assert_eq!(plan_read_to_end(Ok(0), Ok(0), &mut empty), ReadToEndPlan::Done(Ok(0)));
    assert!(empty.is_empty());
    assert_eq!(plan_read_to_end(Ok(15), Ok(12), &mut buf), ReadToEndPlan::Done(Ok(0)));
    assert_eq!(buf, vec![1u8, 2, 3]);
}

#[test]
fn read_to_end_errors() {
    let mut buf = buffer(4);
    assert_eq!(
        plan_read_to_end(Err(Error::Errno(9)), Err(Error::Errno(22)), &mut buf),
        ReadToEndPlan::Done(Err(Error::Errno(9)))
    );
    assert_eq!(
        plan_read_to_end(Ok(0), Err(Error::Errno(22)), &mut buf),
        ReadToEndPlan::Done(Err(Error::Errno(22)))
    );
    assert_eq!(buf, buffer(4));
    assert_eq!(finish_read_to_end(5, Err(Error::Errno(5))), Err(Error::Errno(5)));
}

#[test]
fn seek_origins() {
    assert_eq!(seek_directive(SeekFrom::Start(0)), (Whence::FromStart, 0));
    assert_eq!(seek_directive(SeekFrom::Start(7)), (Whence::FromStart, 7));
    assert_eq!(seek_directive(SeekFrom::End(-2)), (Whence::FromEnd, -2));
    assert_eq!(seek_directive(SeekFrom::Current(3)), (Whence::FromCurrent, 3));
    assert_eq!(seek_directive(SeekFrom::Start(u64::MAX)), (Whence::FromStart, -1));
}

#[test]
fn open_then_close_twice() {
    assert_eq!(open_outcome(true, 2), Err(Error::Errno(2)));
    let mut state = open_outcome(false, 0).unwrap();
    assert_eq!(state.begin_close(), None);
    assert_eq!(state.finish_close(0, 0), Ok(()));
    assert_eq!(state.begin_close(), Some(Ok(())));
    assert_eq!(state.begin_close(), Some(Ok(())));
}

#[test]
fn failed_close_leaves_stream_open() {
    let mut state = open_outcome(false, 0).unwrap();
    assert_eq!(state.finish_close(-1, 5), Err(Error::Errno(5)));
    assert_eq!(state.begin_close(), None);
    assert_eq!(state.finish_close(0, 0), Ok(()));
    assert_eq!(state.begin_close(), Some(Ok(())));
}
