use raydium_amm::wire::put;
use raydium_amm::log::{frame_ray_log, kind_of_record, ray_log_line, read_ray_log, LogType, LOG_SIZE};

#[test]
fn log_line_opens_with_the_prefix_and_carries_base64() {
    assert_eq!(ray_log_line(b"hello").unwrap(), b"ray_log: aGVsbG8=".to_vec());
    assert_eq!(ray_log_line(&[0, 0, 0]).unwrap(), b"ray_log: AAAA".to_vec());
    assert_eq!(ray_log_line(&[]).unwrap(), b"ray_log: ".to_vec());
    assert_eq!(ray_log_line(&[0xfb, 0xff]).unwrap(), b"ray_log: +/8=".to_vec());
}

#[test]
fn log_line_takes_records_up_to_183_bytes() {
    let longest = vec![7u8; 183];
    let line = ray_log_line(&longest).unwrap();
    assert_eq!(line.len(), 9 + 244);
    assert!(line.len() <= LOG_SIZE);
    assert!(ray_log_line(&vec![7u8; 184]).is_none());
    assert!(ray_log_line(&vec![7u8; 1000]).is_none());
}

#[test]
fn framing_puts_the_prefix_first() {
    assert_eq!(frame_ray_log(b"AQID".to_vec()), b"ray_log: AQID".to_vec());
    assert_eq!(frame_ray_log(Vec::new()), b"ray_log: ".to_vec());
}

#[test]
fn record_kind_is_read_from_the_first_byte() {
    assert_eq!(kind_of_record(&[0, 9, 9]), Some(LogType::Init));
    assert_eq!(kind_of_record(&[1]), Some(LogType::Deposit));
    assert_eq!(kind_of_record(&[2]), Some(LogType::Withdraw));
    assert_eq!(kind_of_record(&[3]), Some(LogType::SwapBaseIn));
    assert_eq!(kind_of_record(&[4, 0]), Some(LogType::SwapBaseOut));
    assert_eq!(kind_of_record(&[5]), None);
    assert_eq!(kind_of_record(&[255, 0]), None);
    assert_eq!(kind_of_record(&[]), None);
}

#[test]
fn logged_event_is_read_back_with_its_kind() {
    assert_eq!(read_ray_log(b"AQID"), Some((LogType::Deposit, vec![1, 2, 3])));
    assert_eq!(read_ray_log(b"BA=="), Some((LogType::SwapBaseOut, vec![4])));
    assert_eq!(read_ray_log(b"BQ=="), None);
    assert_eq!(read_ray_log(b""), None);
    assert_eq!(read_ray_log(b"not base64!"), None);
}

#[test]
fn log_line_and_reading_round_trip() {
    let record = vec![3u8, 1, 0, 0, 0, 0, 0, 0, 0, 200];
    let line = ray_log_line(&record).unwrap();
    assert_eq!(read_ray_log(&line[9..]), Some((LogType::SwapBaseIn, record)));
}

#[test]
fn put_appends_behind_what_is_there() {
    let mut buffer = vec![1u8, 2];
    put(&mut buffer, vec![3, 4, 5]);
    assert_eq!(buffer, vec![1, 2, 3, 4, 5]);
    put(&mut buffer, Vec::new());
    assert_eq!(buffer, vec![1, 2, 3, 4, 5]);
}
