use xcrypt::error::Error;
use xcrypt::gensalt::{gensalt_call, gensalt_result};
use xcrypt::reply::Reply;

const OUTPUT_SIZE: usize = 192;

fn output_holding(text: &[u8]) -> Vec<u8> {
    let mut output = vec![0u8; OUTPUT_SIZE];
    output[..text.len()].copy_from_slice(text);
    output
}

fn invalid_argument_text(e: &Error) -> Option<String> {
    match e {
        Error::InvalidArgument(msg) => Some(msg.clone()),
        _ => None,
    }
}

fn digits_as_random_bytes() -> Vec<u8> {
    let mut n = 0x1234_5678_9789_0123_5678_9012u128;
    let mut random_bytes: Vec<u8> = Vec::new();
    while n > 9 {
        let rest = n % 10;
        random_bytes.push(rest as u8);
        n /= 10;
    }
    random_bytes.push(n as u8);
    random_bytes
}

#[test]
fn call_with_prefix_and_random_bytes() {
    let random_bytes = digits_as_random_bytes();
    let call = gensalt_call(Some("$y$"), 0, Some(&random_bytes), OUTPUT_SIZE).unwrap();
    assert_eq!(call.prefix, Some(b"$y$\0".to_vec()));
    assert_eq!(call.count, 0);
    assert_eq!(call.random_bytes, Some(random_bytes.clone()));
    assert_eq!(call.nrbytes, random_bytes.len() as i32);
    assert_eq!(call.output, vec![0u8; 192]);
    assert_eq!(call.output_size, 192);
}

#[test]
fn call_without_prefix_or_random_bytes() {
    let call = gensalt_call(None, 0, None, OUTPUT_SIZE).unwrap();
    assert_eq!(call.prefix, None);
    assert_eq!(call.count, 0);
    assert_eq!(call.random_bytes, None);
    assert_eq!(call.nrbytes, 0);
    assert_eq!(call.output, vec![0u8; 192]);
    assert_eq!(call.output_size, 192);
}

#[test]
fn call_keeps_the_count() {
    let call = gensalt_call(Some("$2b$"), 12, None, OUTPUT_SIZE).unwrap();
    assert_eq!(call.count, 12);
    let call = gensalt_call(Some("$6$"), u64::MAX, None, OUTPUT_SIZE).unwrap();
    assert_eq!(call.count, u64::MAX);
}

#[test]
fn call_with_the_empty_prefix() {
    let call = gensalt_call(Some(""), 0, None, OUTPUT_SIZE).unwrap();
    assert_eq!(call.prefix, Some(vec![0]));
}

#[test]
fn call_with_no_random_bytes_at_all() {
    let call = gensalt_call(Some("$y$"), 0, Some(&[]), OUTPUT_SIZE).unwrap();
    assert_eq!(call.random_bytes, Some(Vec::new()));
    assert_eq!(call.nrbytes, 0);
}

#[test]
fn random_bytes_may_hold_zero_bytes() {
    let call = gensalt_call(Some("$y$"), 0, Some(&[0, 1, 0, 2]), OUTPUT_SIZE).unwrap();
    assert_eq!(call.random_bytes, Some(vec![0, 1, 0, 2]));
    assert_eq!(call.nrbytes, 4);
}

#[test]
fn prefix_with_a_nul_is_refused() {
    let e = gensalt_call(Some("$y\0$"), 0, None, OUTPUT_SIZE).err().unwrap();
    assert_eq!(invalid_argument_text(&e), Some("Prefix contains NULL byte".to_string()));
    let e = gensalt_call(Some("\0"), 0, Some(&[1, 2, 3]), OUTPUT_SIZE).err().unwrap();
    assert_eq!(invalid_argument_text(&e), Some("Prefix contains NULL byte".to_string()));
}

#[test]
fn output_buffer_beyond_an_int_is_refused() {
    let e = gensalt_call(Some("$y$"), 0, None, i32::MAX as usize + 1).err().unwrap();
    assert_eq!(
        invalid_argument_text(&e),
        Some(
            "Output buffer is too big. This is an internal error and should never occur"
                .to_string()
        )
    );
}

#[test]
fn prefix_is_checked_before_the_output_buffer() {
    let e = gensalt_call(Some("\0"), 0, None, usize::MAX).err().unwrap();
    assert_eq!(invalid_argument_text(&e), Some("Prefix contains NULL byte".to_string()));
}

#[test]
fn result_is_the_setting_in_the_output() {
    let output = output_holding(b"$y$j9T$6I..3I..6UE//2U/5EU..I./5MU/0...2AU/3.");
    let setting = gensalt_result(&output, Reply::Text { offset: 0 }).unwrap();
    assert_eq!(setting, "$y$j9T$6I..3I..6UE//2U/5EU..I./5MU/0...2AU/3.");
}

#[test]
fn result_stops_at_the_terminator() {
    let mut output = output_holding(b"$6$saltsalt");
    output[20] = b'x';
    let setting = gensalt_result(&output, Reply::Text { offset: 0 }).unwrap();
    assert_eq!(setting, "$6$saltsalt");
}

#[test]
fn result_of_a_null_reply_is_translated() {
    let output = output_holding(b"*0");
    let e = gensalt_result(&output, Reply::Null { code: 22 }).err().unwrap();
    assert_eq!(
        invalid_argument_text(&e),
        Some("invalid prefix, count, or random bytes".to_string())
    );
    assert!(matches!(
        gensalt_result(&output, Reply::Null { code: 38 }),
        Err(Error::RngNotAvailable)
    ));
    assert!(matches!(
        gensalt_result(&output, Reply::Null { code: 13 }),
        Err(Error::RngNotAvailable)
    ));
    assert!(matches!(gensalt_result(&output, Reply::Null { code: 5 }), Err(Error::RngNotAvailable)));
    assert!(matches!(gensalt_result(&output, Reply::Null { code: 34 }), Err(Error::IoError(34))));
    assert!(matches!(gensalt_result(&output, Reply::Null { code: 88 }), Err(Error::IoError(88))));
}

#[test]
fn result_of_a_null_reply_without_a_code() {
    let output = output_holding(b"$y$j9T$abc");
    assert!(matches!(gensalt_result(&output, Reply::Null { code: 0 }), Err(Error::IoError(0))));
}

#[test]
fn result_of_a_reply_that_points_to_no_string() {
    let full = vec![b'a'; OUTPUT_SIZE];
    assert!(matches!(gensalt_result(&full, Reply::Text { offset: 0 }), Err(Error::IoError(0))));
    let output = output_holding(b"$y$");
    assert!(matches!(
        gensalt_result(&output, Reply::Text { offset: OUTPUT_SIZE }),
        Err(Error::IoError(0))
    ));
    assert!(matches!(gensalt_result(&[], Reply::Text { offset: 0 }), Err(Error::IoError(0))));
}

#[test]
fn equal_inputs_give_equal_calls_and_results() {
    let random_bytes = digits_as_random_bytes();
    let a = gensalt_call(Some("$y$"), 0, Some(&random_bytes), OUTPUT_SIZE).unwrap();
    let b = gensalt_call(Some("$y$"), 0, Some(&random_bytes), OUTPUT_SIZE).unwrap();
    assert_eq!(a.prefix, b.prefix);
    assert_eq!(a.count, b.count);
    assert_eq!(a.random_bytes, b.random_bytes);
    assert_eq!(a.nrbytes, b.nrbytes);
    assert_eq!(a.output, b.output);
    assert_eq!(a.output_size, b.output_size);
    let output = output_holding(b"$y$j9T$6I..3I..6UE//2U/5EU..I./5MU/0...2AU/3.");
    assert_eq!(
        gensalt_result(&output, Reply::Text { offset: 0 }).unwrap(),
        gensalt_result(&output, Reply::Text { offset: 0 }).unwrap()
    );
}

#[test]
fn random_bytes_beyond_an_int_are_refused() {
    let random_bytes = vec![0u8; i32::MAX as usize + 1];
    let e = gensalt_call(Some("$y$"), 0, Some(&random_bytes), OUTPUT_SIZE).err().unwrap();
    assert_eq!(invalid_argument_text(&e), Some("too many random bytes".to_string()));
}

#[test]
fn random_bytes_are_checked_before_the_output_buffer() {
    let random_bytes = vec![0u8; i32::MAX as usize + 1];
    let e = gensalt_call(None, 0, Some(&random_bytes), usize::MAX).err().unwrap();
    assert_eq!(invalid_argument_text(&e), Some("too many random bytes".to_string()));
}
