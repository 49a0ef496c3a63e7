use gcsf::dummy_file::{DummyFile, FileError, SeekFrom};

fn rest(file: &mut DummyFile) -> Vec<u8> {
    let mut buf: Vec<u8> = Vec::new();
    let n = file.read_to_end(&mut buf).unwrap();
    assert_eq!(n, buf.len());
    buf
}

#[test]
fn reads_everything() {
    let mut file = DummyFile::new(&[1, 2, 3]);
    let mut buf: Vec<u8> = vec![9];
    assert_eq!(file.read_to_end(&mut buf), Ok(3));
    assert_eq!(buf, vec![9, 1, 2, 3]);
    assert!(file.at_end());
    assert_eq!(rest(&mut file), Vec::<u8>::new());
}

#[test]
fn reads_one_byte_at_a_time() {
    let mut file = DummyFile::new(&[7, 8]);
    let mut buf: [u8; 3] = [0, 5, 5];
    assert_eq!(file.read(&mut buf), Ok(1));
    assert_eq!(buf, [7, 5, 5]);
    assert_eq!(file.read(&mut buf), Ok(1));
    assert_eq!(buf, [8, 5, 5]);
    assert!(file.at_end());
    assert_eq!(file.read(&mut buf), Ok(0));
    assert_eq!(file.read(&mut []), Ok(0));
    assert_eq!(buf, [8, 5, 5]);
}

#[test]
fn byte_by_byte_agrees_with_reading_in_one_go() {
    let data: Vec<u8> = (0..=255).collect();
    let mut one = DummyFile::new(&data);
    let mut other = DummyFile::new(&data);
    one.seek(SeekFrom::Start(100)).unwrap();
    other.seek(SeekFrom::Start(100)).unwrap();
    let mut bytes: Vec<u8> = Vec::new();
    let mut buf: [u8; 1] = [0];
    while other.read(&mut buf).unwrap() > 0 {
        bytes.push(buf[0]);
    }
    assert_eq!(rest(&mut one), bytes);
    assert_eq!(bytes.len(), 156);
}

#[test]
fn seeks_from_the_start() {
    let mut file = DummyFile::new(&[1, 2, 3]);
    assert_eq!(file.seek(SeekFrom::Start(2)), Ok(2));
    assert_eq!(rest(&mut file), vec![3]);
    assert_eq!(file.seek(SeekFrom::Start(0)), Ok(0));
    assert_eq!(rest(&mut file), vec![1, 2, 3]);
    assert_eq!(file.seek(SeekFrom::Start(10)), Ok(10));
    assert_eq!(rest(&mut file), Vec::<u8>::new());
}

#[test]
fn seeks_backwards_from_the_end() {
    let mut file = DummyFile::new(&[1, 2, 3]);
    assert_eq!(file.seek(SeekFrom::End(0)), Ok(3));
    assert_eq!(file.seek(SeekFrom::End(1)), Ok(2));
    assert_eq!(rest(&mut file), vec![3]);
    assert_eq!(file.seek(SeekFrom::End(-2)), Ok(5));
    assert_eq!(file.seek(SeekFrom::End(4)), Err(FileError::InvalidInput));
}

#[test]
fn seeks_from_where_it_is() {
    let mut file = DummyFile::new(&[1, 2, 3]);
    assert_eq!(file.seek(SeekFrom::Current(2)), Ok(2));
    assert_eq!(file.seek(SeekFrom::Current(-1)), Ok(1));
    assert_eq!(file.seek(SeekFrom::Current(-2)), Err(FileError::InvalidInput));
    assert_eq!(rest(&mut file), vec![2, 3]);
}

#[test]
fn refuses_a_start_that_a_signed_number_cannot_hold() {
    let mut file = DummyFile::new(&[1, 2, 3]);
    assert!(file.seek_fits(SeekFrom::Start(u64::MAX)));
    assert_eq!(file.seek(SeekFrom::Start(u64::MAX)), Err(FileError::InvalidInput));
    assert_eq!(file.seek(SeekFrom::Start(i64::MAX as u64)), Ok(i64::MAX as u64));
    assert!(!file.seek_fits(SeekFrom::Current(1)));
    assert!(file.seek_fits(SeekFrom::Current(0)));
    assert!(!file.seek_fits(SeekFrom::End(i64::MIN)));
}

#[test]
fn reads_to_a_string_one_character_for_each_byte() {
    let mut file = DummyFile::new(&[72, 105, 0xe9, 0xff]);
    let mut text = String::from(">");
    assert_eq!(file.read_to_string(&mut text), Ok(4));
    assert_eq!(text, ">Hi\u{e9}\u{ff}");
    assert!(file.at_end());
}

#[test]
fn read_exact_reads_nothing() {
    let mut file = DummyFile::new(&[1, 2]);
    let mut buf: [u8; 2] = [4, 4];
    assert_eq!(file.read_exact(&mut buf), Ok(()));
    assert_eq!(buf, [4, 4]);
    assert_eq!(rest(&mut file), vec![1, 2]);
}

#[test]
fn by_ref_is_the_file_itself() {
    let mut file = DummyFile::new(&[1, 2]);
    let mut buf: [u8; 1] = [0];
    assert_eq!(file.by_ref().read(&mut buf), Ok(1));
    assert_eq!(rest(&mut file), vec![2]);
}
