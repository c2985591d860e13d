use libaec::sys::szlib::{
    SZ_com_t, SZ_MAX_PIXELS_PER_BLOCK, SZ_MAX_PIXELS_PER_SCANLINE, SZ_MEM_ERROR,
    SZ_NO_ENCODER_ERROR, SZ_OK, SZ_OUTBUFF_FULL, SZ_PARAM_ERROR,
};
use libaec::sz::{Error, Options, Parameters, Reply, Request};
use libaec::ErrorKind;

const KEY: u8 = 0x5A;

/// Stands in for the coder's one call, in either direction: lays `KEY` over
/// each byte, where the parameters are in range and the destination takes
/// the source.
fn one_call(record: &SZ_com_t, source: &[u8], request: &Request) -> Reply {
    assert_eq!(request.source_len, source.len());
    let in_range = record.bits_per_pixel >= 1
        && record.bits_per_pixel <= 32
        && record.pixels_per_block >= 2
        && record.pixels_per_block <= SZ_MAX_PIXELS_PER_BLOCK
        && record.pixels_per_block % 2 == 0
        && record.pixels_per_scanline >= 1
        && record.pixels_per_scanline <= SZ_MAX_PIXELS_PER_SCANLINE;
    if !in_range {
        return Reply { status: SZ_PARAM_ERROR, written: vec![] };
    }
    if request.dest_len < source.len() {
        return Reply { status: SZ_OUTBUFF_FULL, written: vec![] };
    }
    Reply { status: SZ_OK, written: source.iter().map(|b| b ^ KEY).collect() }
}

#[test]
fn round_trip() {
    let pixels_per_block = 16;
    let data = b" This is a fun message for you. ";
    assert_eq!(data.len() % pixels_per_block, 0);

    let mut compressed = Vec::with_capacity(data.len() + 1);
    compressed.push(42);
    let mut decompressed = Vec::with_capacity(data.len() + 1);
    decompressed.push(42);

    let c = Parameters::new(
        Options::allow_k13() | Options::msb() | Options::nn(),
        8,
        pixels_per_block,
        data.len(),
    );

    let request = c.request(data, &compressed);
    let reply = one_call(c.as_record(), data, &request);
    assert!(c.compress(data, &mut compressed, &reply).is_ok());
    assert_eq!(compressed[0], 42);
    let request = c.request(&compressed[1..], &decompressed);
    let reply = one_call(c.as_record(), &compressed[1..], &request);
    assert!(c.decompress(&compressed[1..], &mut decompressed, &reply).is_ok());
    assert_eq!(decompressed[0], 42);
    assert_eq!(&decompressed[1..], data);
}

#[test]
fn one_call_commits_what_was_written() {
    let c = Parameters::new(Options::nn(), 8, 16, 32);
    let mut dest = vec![42u8];
    let reply = Reply { status: SZ_OK, written: vec![1, 2, 3] };
    assert_eq!(c.compress(b"abc", &mut dest, &reply), Ok(3));
    assert_eq!(dest, vec![42u8, 1, 2, 3]);
    assert_eq!(c.decompress(b"abc", &mut dest, &reply), Ok(3));
    assert_eq!(dest, vec![42u8, 1, 2, 3, 1, 2, 3]);
    let mut region = [9u8; 4];
    assert_eq!(c.compress(b"abc", &mut region[..], &reply), Ok(3));
    assert_eq!(region, [1, 2, 3, 9]);
    let mut region = [std::mem::MaybeUninit::<u8>::uninit(); 4];
    assert_eq!(c.decompress(b"abc", &mut region[..], &reply), Ok(3));
}

#[test]
fn one_call_request() {
    let c = Parameters::new(Options::nn(), 8, 16, 32);
    let region = [0u8; 7];
    assert_eq!(c.request(b"abc", &region[..]), Request { dest_len: 7, source_len: 3 });
    assert_eq!(c.request(b"", &region[5..]), Request { dest_len: 2, source_len: 0 });
    let mut dest = Vec::with_capacity(20);
    dest.push(1u8);
    let request = c.request(b"abcd", &dest);
    assert_eq!(request.dest_len, dest.capacity() - 1);
    assert_eq!(request.source_len, 4);
}

#[test]
fn one_call_errors() {
    let c = Parameters::new(Options::nn(), 8, 16, 32);
    let mut dest = vec![42u8];
    for (status, error) in [
        (SZ_OUTBUFF_FULL, Error::OutputBufferFull),
        (SZ_PARAM_ERROR, Error::Parameter),
        (SZ_NO_ENCODER_ERROR, Error::Parameter),
        (SZ_MEM_ERROR, Error::Memory),
        (1, Error::Parameter),
        (-2, Error::Parameter),
        (-3, Error::Parameter),
        (i32::MIN, Error::Parameter),
    ] {
        assert_eq!(Error::from_int(status), Err(error.clone()));
        let reply = Reply { status, written: vec![1, 2] };
        assert_eq!(c.compress(b"ab", &mut dest, &reply), Err(error.clone()));
        assert_eq!(c.decompress(b"ab", &mut dest, &reply), Err(error));
        assert_eq!(dest, vec![42u8]);
    }
    assert_eq!(Error::from_int(SZ_OK), Ok(()));
}

#[test]
fn one_call_into_a_small_destination() {
    let data = b" This is a fun message for you. ";
    let c = Parameters::new(Options::nn(), 8, 16, 32);
    let mut dest = Vec::with_capacity(8);
    dest.push(42u8);
    let request = c.request(data, &dest);
    let reply = one_call(c.as_record(), data, &request);
    assert_eq!(c.compress(data, &mut dest, &reply), Err(Error::OutputBufferFull));
    assert_eq!(dest, vec![42u8]);
    let odd = Parameters::new(Options::nn(), 8, 15, 32);
    let mut dest = Vec::with_capacity(64);
    let request = odd.request(data, &dest);
    let reply = one_call(odd.as_record(), data, &request);
    assert_eq!(odd.compress(data, &mut dest, &reply), Err(Error::Parameter));
    assert!(dest.is_empty());
}

#[test]
fn one_call_error_texts_and_kinds() {
    assert_eq!(Error::OutputBufferFull.message(), "output buffer is full");
    assert_eq!(Error::Parameter.message(), "bad parameters");
    assert_eq!(Error::Memory.message(), "out of memory");
    assert_eq!(ErrorKind::from(Error::OutputBufferFull), ErrorKind::InvalidInput);
    assert_eq!(ErrorKind::from(Error::Parameter), ErrorKind::InvalidInput);
    assert_eq!(ErrorKind::from(Error::Memory), ErrorKind::Other);
}

#[test]
fn parameters_give_back_what_they_were_made_with() {
    let options = Options::allow_k13() | Options::msb() | Options::nn();
    let c = Parameters::new(options, 8, 16, 32);
    assert_eq!(c.options(), options);
    assert_eq!(c.bits_per_pixel(), 8);
    assert_eq!(c.pixels_per_block(), 16);
    assert_eq!(c.pixels_per_scanline(), 32);
    assert_eq!(
        *c.as_record(),
        SZ_com_t {
            options_mask: 49,
            bits_per_pixel: 8,
            pixels_per_block: 16,
            pixels_per_scanline: 32
        }
    );
    let all = Parameters::new(Options::all(), 0, 0, 0);
    assert_eq!(all.options(), Options::all());
    assert_eq!(all.as_record().options_mask, 191);
    assert_eq!(all.bits_per_pixel(), 0);
}

#[test]
fn parameters_cut_numbers_to_32_bits() {
    let c = Parameters::new(Options::empty(), i32::MAX as usize, u32::MAX as usize, 1 << 31);
    assert_eq!(c.as_record().bits_per_pixel, i32::MAX);
    assert_eq!(c.as_record().pixels_per_block, -1);
    assert_eq!(c.as_record().pixels_per_scanline, i32::MIN);
    assert_eq!(c.bits_per_pixel(), i32::MAX as usize);
    assert_eq!(c.pixels_per_block(), usize::MAX);
    assert_eq!(c.pixels_per_scanline(), usize::MAX - (i32::MAX as usize));
    if usize::BITS > 32 {
        let c = Parameters::new(Options::empty(), (1usize << 32) + 8, (1usize << 40) + 16, 3);
        assert_eq!(c.bits_per_pixel(), 8);
        assert_eq!(c.pixels_per_block(), 16);
        assert_eq!(c.pixels_per_scanline(), 3);
    }
}
