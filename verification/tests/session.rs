//! End-to-end sessions against a scripted peer: the connect loop, the
//! second-stage upload, hash-skip, erase-program-verify, error
//! surfacing, timeout scoping and pin sequencing.

use blflash::chip::ChipType;
use blflash::connection::Connection;
use blflash::error::Error;
use blflash::error::RomError;
use blflash::flasher::Flasher;
use blflash::flasher::RomSegment;
use blflash::hashing::sha256_digest;
use blflash::pins::PinExpr;
use blflash::port::PinEvent;
use blflash::protocol::BootInfoV2;
use blflash::protocol::Command;
use blflash::script::ScriptPort;

fn pin(s: &str) -> PinExpr {
    PinExpr::parse(&s.as_bytes().to_vec()).unwrap()
}

fn make_flasher(script: Vec<u8>) -> Flasher<ScriptPort> {
    let port = ScriptPort::new(script);
    let conn = Connection::new(port, pin("rts"), pin("!dtr"));
    Flasher { conn, boot_info: BootInfoV2::default(), chip: ChipType::Bl602, flash_speed: 1_000_000 }
}

/// A loader blob with the given amount of segment data after its two
/// headers, filled with a recognizable pattern.
fn loader_blob(data_len: usize) -> Vec<u8> {
    (0..176 + 16 + data_len).map(|i| (i % 251) as u8).collect()
}

/// The peer's replies to a whole second-stage upload whose data goes
/// out in `chunks` chunks: headers, chunks, check, run, and the
/// post-switch handshake.
fn loader_replies(blob: &[u8], chunks: usize) -> Vec<u8> {
    let mut s = vec![0x4f, 0x4b];
    s.extend([0x4f, 0x4b, 0x10, 0x00]);
    s.extend_from_slice(&blob[176..192]);
    for _ in 0..chunks {
        s.extend([0x4f, 0x4b]);
    }
    s.extend([0x4f, 0x4b]);
    s.extend([0x4f, 0x4b]);
    s.extend([0x4f, 0x4b]);
    s
}

fn sha_reply(digest: &[u8]) -> Vec<u8> {
    let mut s = vec![0x4f, 0x4b, 0x20, 0x00];
    s.extend_from_slice(digest);
    s
}

fn expect_frame(w: &[u8], pos: &mut usize, id: u8, body: &[u8]) {
    let len = body.len();
    assert_eq!(w[*pos], id);
    assert_eq!(w[*pos + 1], 0);
    assert_eq!(w[*pos + 2], (len & 0xff) as u8);
    assert_eq!(w[*pos + 3], (len >> 8) as u8);
    assert_eq!(&w[*pos + 4..*pos + 4 + len], body);
    *pos += 4 + len;
}

fn expect_burst(w: &[u8], pos: &mut usize, n: usize) {
    assert!(w[*pos..*pos + n].iter().all(|&b| b == 0x55));
    *pos += n;
}

/// Walks the written log past a whole second-stage upload.
fn expect_loader_upload(w: &[u8], pos: &mut usize, blob: &[u8]) {
    expect_frame(w, pos, 0x11, &blob[0..176]);
    expect_frame(w, pos, 0x17, &blob[176..192]);
    let mut off = 192;
    while off < blob.len() {
        let step = (blob.len() - off).min(4000);
        expect_frame(w, pos, 0x18, &blob[off..off + step]);
        off += step;
    }
    expect_frame(w, pos, 0x19, &[]);
    expect_frame(w, pos, 0x1a, &[]);
    // The handshake burst at the flash speed of 1 MBd: 500 bytes.
    expect_burst(w, pos, 500);
}

#[test]
fn s1_connect_happy_path() {
    // Handshake OK, then boot-info reply: len 0x1A00, version 0x1234,
    // 16 OTP bytes.
    let mut script = vec![0x4f, 0x4b];
    script.extend([0x4f, 0x4b, 0x00, 0x1a, 0x34, 0x12, 0x00, 0x00]);
    let otp: Vec<u8> = (0..16u32).map(|i| 0x30 + i as u8).collect();
    script.extend(otp.iter().copied());

    let port = ScriptPort::new(script);
    let f = Flasher::connect(ChipType::Bl602, port, 115200, 1_000_000, pin("rts"), pin("!dtr"))
        .unwrap();
    assert_eq!(f.boot_info().len, 0x1a00);
    assert_eq!(f.boot_info().bootrom_version, 0x1234);
    assert_eq!(f.boot_info().otp_info, otp);
    assert_eq!(f.boot_info().unknow_info, vec![0, 0, 0, 0]);

    let port = f.into_inner().into_inner();
    // Entering the ROM bootloader: boot asserted (inverted DTR), reset
    // pulsed, boot released.
    assert_eq!(
        port.pins,
        vec![
            PinEvent::Dtr(false),
            PinEvent::Rts(true),
            PinEvent::Rts(false),
            PinEvent::Dtr(true),
        ]
    );
    // 55 training bytes at 115200 Bd, then the boot-info request.
    let w = &port.written;
    let mut pos = 0;
    expect_burst(w, &mut pos, 55);
    expect_frame(w, &mut pos, 0x10, &[]);
    assert_eq!(pos, w.len());
    // The read timeout was widened for the session.
    assert_eq!(port.timeout_cfg, 10000);
}

#[test]
fn s2_load_boot_header() {
    let mut f = make_flasher(vec![0x4f, 0x4b]);
    let header: Vec<u8> = (0..176u32).map(|i| i as u8).collect();
    f.load_boot_header(&header).unwrap();
    let port = f.into_inner().into_inner();
    let mut pos = 0;
    expect_frame(&port.written, &mut pos, 0x11, &header);
    assert_eq!(pos, port.written.len());
    // The whole script was consumed: no payload was read after `OK`.
    assert_eq!(port.cursor, 2);
}

#[test]
fn s3_segment_data_ends_without_empty_chunk() {
    let blob = loader_blob(5000);
    let mut f = make_flasher(loader_replies(&blob, 2));
    f.load_eflash_loader(&blob).unwrap();
    let port = f.into_inner().into_inner();
    let w = &port.written;
    let mut pos = 0;
    expect_frame(w, &mut pos, 0x11, &blob[0..176]);
    expect_frame(w, &mut pos, 0x17, &blob[176..192]);
    expect_frame(w, &mut pos, 0x18, &blob[192..4192]);
    expect_frame(w, &mut pos, 0x18, &blob[4192..5192]);
    // No third 0x18: check and run follow at once.
    expect_frame(w, &mut pos, 0x19, &[]);
    expect_frame(w, &mut pos, 0x1a, &[]);
    expect_burst(w, &mut pos, 500);
    assert_eq!(pos, w.len());
}

#[test]
fn s4_matching_hash_skips_the_segment() {
    let blob = loader_blob(8);
    let data: Vec<u8> = (1..=15u32).map(|i| i as u8).collect();
    let digest = sha256_digest(&data);

    let mut script = loader_replies(&blob, 1);
    script.extend(sha_reply(&digest));

    let mut f = make_flasher(script);
    let segments = vec![RomSegment::from_vec(0x10000, data)];
    let mismatched = f.load_segments(false, &segments, &blob).unwrap();
    assert_eq!(mismatched, Vec::<u32>::new());

    let port = f.into_inner().into_inner();
    let w = &port.written;
    let mut pos = 0;
    expect_loader_upload(w, &mut pos, &blob);
    // Exactly one sha256_read frame and nothing else: no erase, no
    // program.
    expect_frame(
        w,
        &mut pos,
        0x3d,
        &[0x00, 0x00, 0x01, 0x00, 0x0f, 0x00, 0x00, 0x00],
    );
    assert_eq!(pos, w.len());
}

#[test]
fn p5_second_run_issues_no_writes_when_hashes_match() {
    let blob = loader_blob(8);
    let seg_a: Vec<u8> = vec![0xaa; 100];
    let seg_b: Vec<u8> = vec![0xbb; 4500];
    let mut script = loader_replies(&blob, 1);
    script.extend(sha_reply(&sha256_digest(&seg_a)));
    script.extend(sha_reply(&sha256_digest(&seg_b)));

    let mut f = make_flasher(script);
    let segments = vec![
        RomSegment::from_vec(0x1000, seg_a),
        RomSegment::from_vec(0x4000, seg_b),
    ];
    let mismatched = f.load_segments(false, &segments, &blob).unwrap();
    assert_eq!(mismatched, Vec::<u32>::new());

    let port = f.into_inner().into_inner();
    let w = &port.written;
    let mut pos = 0;
    expect_loader_upload(w, &mut pos, &blob);
    expect_frame(w, &mut pos, 0x3d, &[0x00, 0x10, 0x00, 0x00, 0x64, 0x00, 0x00, 0x00]);
    expect_frame(w, &mut pos, 0x3d, &[0x00, 0x40, 0x00, 0x00, 0x94, 0x11, 0x00, 0x00]);
    assert_eq!(pos, w.len());
}

#[test]
fn s5_erase_program_verify() {
    let blob = loader_blob(8);
    let data: Vec<u8> = (1..=15u32).map(|i| i as u8).collect();
    let digest = sha256_digest(&data);

    let mut script = loader_replies(&blob, 1);
    script.extend(sha_reply(&[0u8; 32]));  // mismatch: program needed
    script.extend([0x4f, 0x4b]);  // erase
    script.extend([0x4f, 0x4b]);  // program
    script.extend(sha_reply(&digest));  // verify matches

    let mut f = make_flasher(script);
    let segments = vec![RomSegment::from_vec(0x10000, data.clone())];
    let mismatched = f.load_segments(false, &segments, &blob).unwrap();
    assert_eq!(mismatched, Vec::<u32>::new());

    let port = f.into_inner().into_inner();
    let w = &port.written;
    let mut pos = 0;
    expect_loader_upload(w, &mut pos, &blob);
    let sha_body = [0x00, 0x00, 0x01, 0x00, 0x0f, 0x00, 0x00, 0x00];
    expect_frame(w, &mut pos, 0x3d, &sha_body);
    // Erase [0x10000, 0x1000F): end exclusive.
    expect_frame(
        w,
        &mut pos,
        0x30,
        &[0x00, 0x00, 0x01, 0x00, 0x0f, 0x00, 0x01, 0x00],
    );
    let mut program_body = vec![0x00, 0x00, 0x01, 0x00];
    program_body.extend(data.iter().copied());
    expect_frame(w, &mut pos, 0x31, &program_body);
    expect_frame(w, &mut pos, 0x3d, &sha_body);
    assert_eq!(pos, w.len());
}

#[test]
fn s5_verify_mismatch_is_advisory() {
    let blob = loader_blob(8);
    let data: Vec<u8> = vec![0x42; 10];

    let mut script = loader_replies(&blob, 1);
    script.extend(sha_reply(&[0u8; 32]));
    script.extend([0x4f, 0x4b]);
    script.extend([0x4f, 0x4b]);
    script.extend(sha_reply(&[1u8; 32]));  // still wrong after program

    let mut f = make_flasher(script);
    let segments = vec![RomSegment::from_vec(0x8000, data)];
    // The run completes; the differing segment is reported, not failed.
    let mismatched = f.load_segments(false, &segments, &blob).unwrap();
    assert_eq!(mismatched, vec![0x8000]);
}

#[test]
fn s6_rom_error_surfaces_and_stops_the_segment() {
    let blob = loader_blob(8);
    let data: Vec<u8> = (1..=15u32).map(|i| i as u8).collect();

    let mut script = loader_replies(&blob, 1);
    script.extend(sha_reply(&[0u8; 32]));
    script.extend([0x4f, 0x4b]);  // erase
    script.extend([0x46, 0x4c, 0x06, 0x00]);  // program: FlashWriteError

    let mut f = make_flasher(script);
    let segments = vec![RomSegment::from_vec(0x10000, data.clone())];
    let r = f.load_segments(false, &segments, &blob);
    assert_eq!(r, Err(Error::RomError(RomError::FlashWriteError)));

    let port = f.into_inner().into_inner();
    let w = &port.written;
    let mut pos = 0;
    expect_loader_upload(w, &mut pos, &blob);
    expect_frame(w, &mut pos, 0x3d, &[0x00, 0x00, 0x01, 0x00, 0x0f, 0x00, 0x00, 0x00]);
    expect_frame(w, &mut pos, 0x30, &[0x00, 0x00, 0x01, 0x00, 0x0f, 0x00, 0x01, 0x00]);
    let mut program_body = vec![0x00, 0x00, 0x01, 0x00];
    program_body.extend(data.iter().copied());
    expect_frame(w, &mut pos, 0x31, &program_body);
    // No further commands were issued for this segment.
    assert_eq!(pos, w.len());
}

#[test]
fn large_segments_program_in_chunks_of_4000() {
    let blob = loader_blob(8);
    let data: Vec<u8> = (0..4500u32).map(|i| (i % 256) as u8).collect();
    let digest = sha256_digest(&data);
    let mut script = loader_replies(&blob, 1);
    script.extend([0x4f, 0x4b]);  // erase
    script.extend([0x4f, 0x4b]);  // program, first chunk
    script.extend([0x4f, 0x4b]);  // program, second chunk
    script.extend(sha_reply(&digest));

    let mut f = make_flasher(script);
    let segments = vec![RomSegment::from_vec(0x2000, data.clone())];
    let mismatched = f.load_segments(true, &segments, &blob).unwrap();
    assert_eq!(mismatched, Vec::<u32>::new());

    let port = f.into_inner().into_inner();
    let w = &port.written;
    let mut pos = 0;
    expect_loader_upload(w, &mut pos, &blob);
    // Erase [0x2000, 0x2000 + 4500).
    expect_frame(w, &mut pos, 0x30, &[0x00, 0x20, 0x00, 0x00, 0x94, 0x31, 0x00, 0x00]);
    let mut first = vec![0x00, 0x20, 0x00, 0x00];
    first.extend_from_slice(&data[0..4000]);
    expect_frame(w, &mut pos, 0x31, &first);
    // The second chunk continues at 0x2000 + 4000 = 0x2FA0.
    let mut second = vec![0xa0, 0x2f, 0x00, 0x00];
    second.extend_from_slice(&data[4000..4500]);
    expect_frame(w, &mut pos, 0x31, &second);
    expect_frame(w, &mut pos, 0x3d, &[0x00, 0x20, 0x00, 0x00, 0x94, 0x11, 0x00, 0x00]);
    assert_eq!(pos, w.len());
}

#[test]
fn empty_segment_erases_nothing_and_programs_nothing() {
    let blob = loader_blob(8);
    let data: Vec<u8> = vec![];
    let digest = sha256_digest(&data);
    let mut script = loader_replies(&blob, 1);
    script.extend([0x4f, 0x4b]);  // erase
    script.extend(sha_reply(&digest));

    let mut f = make_flasher(script);
    let segments = vec![RomSegment::from_vec(0x3000, data)];
    let mismatched = f.load_segments(true, &segments, &blob).unwrap();
    assert_eq!(mismatched, Vec::<u32>::new());

    let port = f.into_inner().into_inner();
    let w = &port.written;
    let mut pos = 0;
    expect_loader_upload(w, &mut pos, &blob);
    // Erase [0x3000, 0x3000): already empty, and no program frame.
    expect_frame(w, &mut pos, 0x30, &[0x00, 0x30, 0x00, 0x00, 0x00, 0x30, 0x00, 0x00]);
    expect_frame(w, &mut pos, 0x3d, &[0x00, 0x30, 0x00, 0x00, 0x00, 0x00, 0x00, 0x00]);
    assert_eq!(pos, w.len());
}

#[test]
fn loader_with_bare_headers_sends_no_data_chunks() {
    let blob = loader_blob(0);
    let mut f = make_flasher(loader_replies(&blob, 0));
    f.load_eflash_loader(&blob).unwrap();
    let port = f.into_inner().into_inner();
    let w = &port.written;
    let mut pos = 0;
    expect_frame(w, &mut pos, 0x11, &blob[0..176]);
    expect_frame(w, &mut pos, 0x17, &blob[176..192]);
    expect_frame(w, &mut pos, 0x19, &[]);
    expect_frame(w, &mut pos, 0x1a, &[]);
    expect_burst(w, &mut pos, 500);
    assert_eq!(pos, w.len());
}

#[test]
fn p2_status_dispatch() {
    let mut conn = Connection::new(ScriptPort::new(vec![0x4f, 0x4b]), pin("rts"), pin("!dtr"));
    assert_eq!(conn.read_response(0), Ok(vec![]));

    let mut conn = Connection::new(
        ScriptPort::new(vec![0x46, 0x4c, 0x03, 0x00]),
        pin("rts"),
        pin("!dtr"),
    );
    assert_eq!(
        conn.read_response(0),
        Err(Error::RomError(RomError::FlashEraseError))
    );

    let mut conn = Connection::new(
        ScriptPort::new(vec![0x46, 0x4c, 0xff, 0x8f]),
        pin("rts"),
        pin("!dtr"),
    );
    assert_eq!(conn.read_response(0), Err(Error::RomError(RomError::Unknow)));

    let mut conn = Connection::new(ScriptPort::new(vec![0x11, 0x22]), pin("rts"), pin("!dtr"));
    assert_eq!(conn.read_response(0), Err(Error::RespError));
}

#[test]
fn p3_pin_inversion() {
    let mut conn = Connection::new(ScriptPort::new(vec![]), pin("rts"), pin("!dtr"));
    conn.set_pin(pin("!rts"), true).unwrap();
    conn.set_pin(pin("rts"), true).unwrap();
    conn.set_pin(pin("null"), true).unwrap();
    let port = conn.into_inner();
    // "!rts" with `true` drives RTS low; "rts" with `true` drives it
    // high; "null" drives nothing.
    assert_eq!(port.pins, vec![PinEvent::Rts(false), PinEvent::Rts(true)]);
}

#[test]
fn p4_timeout_restored_on_success_and_failure() {
    // Success: the peer answers the handshake.
    let mut f = make_flasher(vec![0x4f, 0x4b]);
    f.conn.set_timeout(1234);
    f.handshake().unwrap();
    assert_eq!(f.into_inner().into_inner().timeout_cfg, 1234);

    // Failure: the peer stays silent on all five attempts.
    let mut f = make_flasher(vec![]);
    f.conn.set_timeout(777);
    assert_eq!(f.handshake(), Err(Error::Timeout));
    assert_eq!(f.into_inner().into_inner().timeout_cfg, 777);
}

#[test]
fn training_burst_length_follows_the_baud_rate() {
    let mut conn = Connection::new(ScriptPort::new(vec![]), pin("rts"), pin("!dtr"));
    // Before any baud is configured the default 115200 Bd applies:
    // 11 bytes per millisecond on an 8-N-1 frame.
    assert_eq!(conn.calc_duration_length(5), 55);
    conn.set_baud(1_000_000).unwrap();
    assert_eq!(conn.calc_duration_length(5), 500);
}

#[test]
fn connect_fails_after_ten_silent_rounds() {
    let port = ScriptPort::new(vec![]);
    let r = Flasher::connect(ChipType::Bl602, port, 115200, 1_000_000, pin("rts"), pin("!dtr"));
    assert!(matches!(r, Err(Error::ConnectionFailed)));
}

#[test]
fn dump_reads_the_whole_range() {
    let blob = loader_blob(8);
    let mut script = loader_replies(&blob, 1);
    // Two length-prefixed reads: 4 bytes, then 2 bytes.
    script.extend([0x4f, 0x4b, 0x04, 0x00, 0xca, 0xfe, 0xba, 0xbe]);
    script.extend([0x4f, 0x4b, 0x02, 0x00, 0x12, 0x34]);

    let mut f = make_flasher(script);
    let out = f.dump_flash(0x100, 0x106, &blob).unwrap();
    assert_eq!(out, vec![0xca, 0xfe, 0xba, 0xbe, 0x12, 0x34]);
}

#[test]
fn short_loader_blob_is_an_io_error() {
    let mut f = make_flasher(vec![]);
    let blob = vec![0u8; 100];
    assert_eq!(f.load_eflash_loader(&blob), Err(Error::Io));
    // Nothing was sent.
    assert_eq!(f.into_inner().into_inner().written, Vec::<u8>::new());
}

#[test]
fn oversized_body_is_rejected_before_anything_is_sent() {
    let mut conn = Connection::new(ScriptPort::new(vec![]), pin("rts"), pin("!dtr"));
    let r = conn.command(&Command::LoadSegmentData(vec![0u8; 70000]));
    assert_eq!(r, Err(Error::OverSizedPacket));
    assert_eq!(conn.into_inner().written, Vec::<u8>::new());
}

#[test]
fn check_segments_reports_differing_addresses() {
    let blob = loader_blob(8);
    let seg_a: Vec<u8> = vec![0x11; 40];
    let seg_b: Vec<u8> = vec![0x22; 40];
    let mut script = loader_replies(&blob, 1);
    script.extend(sha_reply(&sha256_digest(&seg_a)));
    script.extend(sha_reply(&[0u8; 32])); // differs

    let mut f = make_flasher(script);
    let segments = vec![
        RomSegment::from_vec(0x1000, seg_a),
        RomSegment::from_vec(0x2000, seg_b),
    ];
    let mismatched = f.check_segments(&segments, &blob).unwrap();
    assert_eq!(mismatched, vec![0x2000]);
}

#[test]
fn force_flag_programs_without_asking() {
    let blob = loader_blob(8);
    let data: Vec<u8> = vec![0x55; 5];
    let digest = sha256_digest(&data);
    let mut script = loader_replies(&blob, 1);
    script.extend([0x4f, 0x4b]);  // erase
    script.extend([0x4f, 0x4b]);  // program
    script.extend(sha_reply(&digest));

    let mut f = make_flasher(script);
    let segments = vec![RomSegment::from_vec(0x0, data)];
    let mismatched = f.load_segments(true, &segments, &blob).unwrap();
    assert_eq!(mismatched, Vec::<u32>::new());

    let port = f.into_inner().into_inner();
    let w = &port.written;
    let mut pos = 0;
    expect_loader_upload(w, &mut pos, &blob);
    // No sha256_read before the erase: the first frame is the erase.
    assert_eq!(w[pos], 0x30);
}
