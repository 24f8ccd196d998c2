use poulpe::ethercat::coe::{
    coe_parse_header, coe_prepare_dataframe, coe_prepare_down_response, coe_prepare_up_response,
    CoEFrame,
};
use poulpe::ethercat::foe::{
    foe_parse_header, foe_prepare_acknowledge, foe_prepare_error, FoEFrame, FoEObject,
    FoERequestType,
};
use poulpe::ethercat::lan9252::{
    csr_command, pram_addr_len, round_to_dword, spi_frame, transfer_chunks, Lan9252Registers,
};
use poulpe::ethercat::mailbox::{MailboxFrame, MailboxType};
use poulpe::ethercat::task::{
    firmware_upload_complete, idle_control_word, parse_pdo_inputs, parse_watchdog_counter,
    pdo_control_word, prepare_pdo_outputs, prepare_pdo_state, sdo_read_reply, sdo_write_value,
    write_watchdog_counter, Lan9252Memory, QUICK_STOP_CONTROL_WORD,
};
use poulpe::state_machine::cia402_state_machine::CiA402Command;
use poulpe::ethercat::task1::Lan9252Memory as Lan9252MemoryEcho;
use poulpe::motor_control::foc::MotionMode;
use poulpe::state_machine::cia402_registers::CiA402ModeOfOperation;
use poulpe::state_machine::poulpe_state::{MotorErrorFlag, PoulpeState};

#[test]
fn mailbox_header() {
    let f = MailboxFrame::new(&[0x00, 0x0A, 0, 0, 0, 0x03]).unwrap();
    assert_eq!(f.header.data_size, 10);
    assert_eq!(f.get_mailbox_type(), MailboxType::CoE);
    let f = MailboxFrame::new(&[0x01, 0x02, 0, 0, 0, 0x04, 9]).unwrap();
    assert_eq!(f.header.data_size, 0x0102);
    assert_eq!(f.get_mailbox_type(), MailboxType::FoE);
    assert!(MailboxFrame::new(&[0, 10, 0, 0, 0, 0x05]).is_err());
}

fn coe_buffer(b8: u8, index: u16, sub: u8, tail: &[u8]) -> Vec<u8> {
    let mut b = vec![0u8; 6];
    b.extend_from_slice(&[0x00, 0x20, b8]);
    b.extend_from_slice(&index.to_le_bytes());
    b.push(sub);
    b.extend_from_slice(tail);
    b
}

#[test]
fn coe_header_fields() {
    let b = coe_buffer(0x2F, 0x2345, 7, &[0xAA]);
    let h = coe_parse_header(&b);
    assert_eq!(h.request_type, 2);
    assert_eq!(h.size_indicator, 3);
    assert_eq!(h.size_bytes, 1);
    assert!(h.download);
    assert_eq!(h.index, 0x2345);
    assert_eq!(h.sub_index, 7);
    assert!(h.is_expedited());
    assert!(h.is_request());
    assert!(!h.is_response());
    assert!(!h.is_normal());
}

#[test]
fn coe_expedited_frame_data() {
    let b = coe_buffer(0x2F, 0x100, 1, &[0xAA, 0xBB]);
    let f = CoEFrame::new(&b).unwrap();
    assert_eq!(f.data, &[0xAA]);
    assert_eq!(f.get_data_size(), 1);
    assert!(f.is_download());
    assert!(!f.is_upload());
    assert!(f.is_expedited());
    assert_eq!(f.get_sdo_entry(), (0x100, 1));
    assert_eq!(f.get_index(), 0x100);
    assert_eq!(f.get_subindex(), 1);
}

#[test]
fn coe_normal_frame_data() {
    let b = coe_buffer(0x21, 0x200, 1, &[3, 0, 0, 0, 7, 8, 9, 10]);
    let f = CoEFrame::new(&b).unwrap();
    assert!(f.is_normal());
    assert!(f.is_request());
    assert_eq!(f.data, &[7, 8, 9]);
}

#[test]
fn coe_other_frame_has_no_data() {
    let mut b = coe_buffer(0x2F, 0x200, 1, &[1, 2, 3, 4]);
    b[7] = 0x80;
    let f = CoEFrame::new(&b).unwrap();
    assert_eq!(f.header.request_type, 8);
    assert_eq!(f.data.len(), 0);
}

#[test]
fn coe_down_response() {
    let mut b = vec![0x11u8; 12];
    coe_prepare_down_response(&mut b);
    assert_eq!(b[8], 0x60);
    assert_eq!(b[7], 0x11);
}

#[test]
fn coe_dataframe_layout() {
    let f = coe_prepare_dataframe(0x2345, 7, true);
    assert_eq!(f[0], 10);
    assert_eq!(f[5], 3);
    assert_eq!(&f[6..12], &[0x00, 0x30, 0x00, 0x45, 0x23, 7]);
    assert!(f[12..].iter().all(|b| *b == 0));
    let h = coe_parse_header(&f);
    assert_eq!(h.request_type, 3);
    assert_eq!(h.index, 0x2345);
    assert_eq!(h.sub_index, 7);
    let r = coe_prepare_dataframe(1, 2, false);
    assert_eq!(&r[6..8], &[0x00, 0x20]);
}

#[test]
fn coe_expedited_up_response() {
    let mut f = coe_prepare_dataframe(0x100, 1, true);
    coe_prepare_up_response(&mut f, &[0x11, 0x22], true);
    assert_eq!(f[0], 12);
    assert_eq!(f[8], 0x4B);
    assert_eq!(&f[12..14], &[0x11, 0x22]);
    let frame = CoEFrame::new(&f).unwrap();
    assert!(frame.is_upload());
    assert!(frame.is_response());
    assert_eq!(frame.data, &[0x11, 0x22]);
}

#[test]
fn coe_expedited_up_response_reads_back_for_one_to_four_bytes() {
    for data in [vec![1u8], vec![1, 2], vec![1, 2, 3], vec![1, 2, 3, 4]] {
        let mut f = coe_prepare_dataframe(0x201, 1, true);
        coe_prepare_up_response(&mut f, &data, true);
        let frame = CoEFrame::new(&f).unwrap();
        assert_eq!(frame.data, &data[..]);
    }
}

#[test]
fn coe_short_text_goes_by_normal_transfer() {
    let mut f = coe_prepare_dataframe(0x200, 1, true);
    coe_prepare_up_response(&mut f, b"abc", false);
    assert_eq!(f[0], 13);
    assert_eq!(f[8], 0x41);
    assert_eq!(&f[12..16], &[3, 0, 0, 0]);
    assert_eq!(&f[16..19], b"abc");
    let frame = CoEFrame::new(&f).unwrap();
    assert!(frame.is_normal());
    assert_eq!(frame.data, b"abc");
}

#[test]
fn coe_long_number_goes_by_normal_transfer() {
    let mut f = coe_prepare_dataframe(0x200, 2, true);
    let data = [1u8, 2, 3, 4, 5, 6, 7, 8];
    coe_prepare_up_response(&mut f, &data, true);
    assert_eq!(f[8], 0x41);
    assert_eq!(&f[12..16], &[8, 0, 0, 0]);
    assert_eq!(&f[16..24], &data);
}

#[test]
fn coe_normal_up_response() {
    let mut f = coe_prepare_dataframe(0x200, 1, true);
    let data = [b'a', b'b', b'c', b'd', b'e', b'f'];
    coe_prepare_up_response(&mut f, &data, false);
    assert_eq!(f[0], 16);
    assert_eq!(f[8], 0x41);
    assert_eq!(&f[12..16], &[6, 0, 0, 0]);
    assert_eq!(&f[16..22], &data);
    let frame = CoEFrame::new(&f).unwrap();
    assert_eq!(frame.data, &data);
}

#[test]
fn foe_header_and_frame() {
    let mut b = vec![0u8; 20];
    b[0] = 9;
    b[6] = 3;
    b[8..12].copy_from_slice(&7u32.to_le_bytes());
    b[12..15].copy_from_slice(&[1, 2, 3]);
    let h = foe_parse_header(&b).unwrap();
    assert_eq!(h.request_type, FoERequestType::Data);
    assert_eq!(h.data_size, 9);
    assert_eq!(h.packet_number, 7);
    let f = FoEFrame::new(&b).unwrap();
    assert_eq!(f.data, &[1, 2, 3]);
    assert_eq!(f.get_data_size(), 3);
    assert_eq!(f.get_request_type(), FoERequestType::Data);
    assert!(f.is_full_packet());
    b[6] = 9;
    assert!(foe_parse_header(&b).is_err());
    assert!(FoEFrame::new(&b).is_err());
}

#[test]
fn foe_replies_decode_as_their_type() {
    let mut b = vec![0u8; 12];
    foe_prepare_acknowledge(&mut b);
    assert_eq!(&b[0..7], &[1, 0, 0, 0, 0, 4, 4]);
    assert_eq!(foe_parse_header(&b).unwrap().request_type, FoERequestType::Acknowledge);
    foe_prepare_error(&mut b);
    assert_eq!(b[6], 5);
    assert_eq!(foe_parse_header(&b).unwrap().request_type, FoERequestType::Error);
    assert_eq!(FoERequestType::Busy.to_u8(), 6);
}

#[test]
fn foe_object_buffer() {
    let mut o = FoEObject::new().unwrap();
    assert_eq!(o.buffer.size, 4096);
    assert!(o.buffer.data.iter().all(|b| *b == 0xFF));
    assert_eq!(o.fill_buffer(&[1, 2, 3]), 3);
    assert_eq!(&o.buffer.data[0..4], &[1, 2, 3, 0xFF]);
    assert_eq!(o.buffer.data_len, 3);
    assert_eq!(o.get_filesize(), 3);
    assert_eq!(o.no_received_packets, 1);
    let big = vec![7u8; 5000];
    assert_eq!(o.fill_buffer(&big), 4093);
    assert_eq!(o.buffer.data_len, 4096);
    assert_eq!(o.get_filesize(), 4096);
    assert_eq!(o.fill_buffer(&[1]), 0);
    o.clear_buffer();
    assert_eq!(o.buffer.data_len, 0);
    assert_eq!(o.get_filesize(), 4096);
    let e = FoEObject::empty();
    assert_eq!(e.name, "");
}

#[test]
fn watchdog_counter() {
    assert_eq!(parse_watchdog_counter(0xF800), 31);
    assert_eq!(parse_watchdog_counter(0x0800), 1);
    assert_eq!(parse_watchdog_counter(0x07FF), 0);
    assert_eq!(write_watchdog_counter([0x37, 0x00], 5), [0x37, 0x81]);
    assert_eq!(write_watchdog_counter([0x37, 0x00], 31), [0x37, 0xC1]);
    assert_eq!(write_watchdog_counter([0x00, 0x02], 0), [0x00, 0x02]);
}

#[test]
fn watchdog_counter_is_echoed_in_status_word() {
    for counter in 0u8..32 {
        let control = (counter as u16) << 11;
        let c = parse_watchdog_counter(control);
        let sw = write_watchdog_counter([0x40, 0], c);
        assert_eq!(sw[0], 0x40);
        assert_eq!(sw[1] & 1, c & 1);
        assert_eq!((sw[1] >> 6) & 1, (c >> 1) & 1);
        assert_eq!((sw[1] >> 7) & 1, (c >> 2) & 1);
        assert_eq!(sw[1] & 0x3E, 0);
    }
}

#[test]
fn process_data_outputs_layout() {
    let state = PoulpeState::new();
    let out = prepare_pdo_outputs(3, &state, MotionMode::Torque, [1, 2, 3], [4, 5, 6], [7, 8, 9], [0x0A0B_0C0D, 0, 0]);
    assert_eq!(out.len(), 51);
    assert_eq!(&out[0..3], &[0x00, 0x41, 4]);
    assert_eq!(&out[3..7], &[1, 0, 0, 0]);
    assert_eq!(&out[15..19], &[4, 0, 0, 0]);
    assert_eq!(&out[27..31], &[7, 0, 0, 0]);
    assert_eq!(&out[39..43], &[0x0D, 0x0C, 0x0B, 0x0A]);
}

#[test]
fn process_data_state_layout() {
    let mut state = PoulpeState::new();
    state.set_motor_error_flag(1, MotorErrorFlag::OverCurrent);
    let out = prepare_pdo_state(&state, [1, 0, 0], [0, 2, 0], [0, 0, 3]);
    assert_eq!(out.len(), 45);
    assert_eq!(&out[0..5], &[0, 0, 32, 0, 3]);
    assert_eq!(out[5], 1);
    assert_eq!(out[21], 2);
    assert_eq!(out[37], 3);
    assert_eq!(&out[41..45], &[0, 0, 0, 0]);
}

#[test]
fn process_data_inputs() {
    let mut data = vec![0x0Fu8, 0x00, 4];
    for block in 0u32..5 {
        for axis in 0u32..3 {
            data.extend_from_slice(&(block * 10 + axis).to_le_bytes());
        }
    }
    let mut control_word = 0u16;
    let mut mode = CiA402ModeOfOperation::NoMode;
    let mut pos = [0u32; 3];
    let mut vel = [0u32; 3];
    let mut vlim = [0u32; 3];
    let mut torque = [0u32; 3];
    let mut tlim = [0u32; 3];
    parse_pdo_inputs(&data, &mut control_word, &mut mode, &mut pos, &mut vel, &mut vlim, &mut torque, &mut tlim);
    assert_eq!(control_word, 0x000F);
    assert_eq!(mode, CiA402ModeOfOperation::ProfileTorqueMode);
    assert_eq!(pos, [0, 1, 2]);
    assert_eq!(vel, [10, 11, 12]);
    assert_eq!(vlim, [20, 21, 22]);
    assert_eq!(torque, [30, 31, 32]);
    assert_eq!(tlim, [40, 41, 42]);
}

#[test]
fn sdo_writes_and_upload_end() {
    assert_eq!(sdo_write_value(&[1, 0, 0, 0]), 1);
    assert_eq!(sdo_write_value(&[0x78, 0x56, 0x34, 0x12]), 0x1234_5678);
    assert_eq!(sdo_write_value(&[1, 2, 3]), 0);
    assert!(firmware_upload_complete(10, 10));
    assert!(!firmware_upload_complete(0, 0));
    assert!(!firmware_upload_complete(10, 9));
    assert!(!firmware_upload_complete(10, 0));
}

#[test]
fn sdo_read_replies() {
    let hash = b"abc123";
    let zeros = [0x11u32, 0x2222, 0x0333_0000];
    assert_eq!(sdo_read_reply(0x100, 1, 0x0102_0304, hash, 9, zeros), Some((vec![4, 3, 2, 1], true)));
    assert_eq!(sdo_read_reply(0x200, 1, 0, hash, 9, zeros), Some((hash.to_vec(), false)));
    assert_eq!(sdo_read_reply(0x201, 1, 0, hash, 9, zeros), Some((vec![9], true)));
    assert_eq!(sdo_read_reply(0x202, 1, 0, hash, 9, zeros), Some((vec![0x22, 0x22, 0, 0], true)));
    assert_eq!(sdo_read_reply(0x202, 3, 0, hash, 9, zeros), None);
    assert_eq!(sdo_read_reply(0x203, 1, 0, hash, 9, zeros), Some((vec![3, 0, 0, 0], true)));
    assert_eq!(sdo_read_reply(0x100, 2, 0, hash, 9, zeros), None);
    assert_eq!(sdo_read_reply(0x999, 1, 0, hash, 9, zeros), None);
}

#[test]
fn memory_areas() {
    assert_eq!(Lan9252Memory::MBoxInput.address(), 0x1000);
    assert_eq!(Lan9252Memory::MBoxOutput.address(), 0x1180);
    assert_eq!(Lan9252Memory::OrbitaIn.address(), 0x1300);
    assert_eq!(Lan9252Memory::OrbitaOut.address(), 0x1400);
    assert_eq!(Lan9252MemoryEcho::OrbitaIn.address(), 0x1000);
    assert_eq!(Lan9252MemoryEcho::OrbitaInAck.address(), 0x1180);
    assert_eq!(Lan9252MemoryEcho::OrbitaStatus.address(), 0x1500);
    assert_eq!(Lan9252MemoryEcho::OrbitaOut.address(), 0x1800);
}

#[test]
fn lan9252_frames() {
    assert_eq!(spi_frame(true, 0x1234, &[9]), vec![0x02, 0x12, 0x34, 9]);
    assert_eq!(spi_frame(false, 0x0050, &[0, 0, 0, 0]), vec![0x03, 0x00, 0x50, 0, 0, 0, 0]);
    assert_eq!(csr_command(0x0300, 4, false), [0x00, 0x03, 4, 0xC0]);
    assert_eq!(csr_command(0x1234, 2, true), [0x34, 0x12, 2, 0x80]);
    assert_eq!(pram_addr_len(0x1000, 0x0040), [0x00, 0x10, 0x40, 0x00]);
    assert_eq!(Lan9252Registers::EcatCsrCmd.address(), 0x304);
    assert_eq!(Lan9252Registers::ByteTest.address(), 0x064);
}

#[test]
fn transfers_round_to_whole_words() {
    assert_eq!(round_to_dword(0), 0);
    assert_eq!(round_to_dword(5), 8);
    assert_eq!(round_to_dword(8), 8);
    assert_eq!(round_to_dword(63), 64);
}

#[test]
fn large_transfers_split_into_chunks() {
    assert_eq!(
        transfer_chunks(0x1000, 130),
        vec![(0x1000, 0, 64), (0x1040, 64, 64), (0x1080, 128, 2)]
    );
    assert_eq!(transfer_chunks(0x1000, 64), vec![(0x1000, 0, 64)]);
    assert_eq!(transfer_chunks(0x1000, 0), vec![]);
}

#[test]
fn control_word_is_passed_on_only_when_the_drive_can_move() {
    let mut s = PoulpeState::new();
    assert_eq!(pdo_control_word(&s, 0x0F, 0, 0), None);
    assert_eq!(idle_control_word(&s), None);
    s.notify_init_success();
    assert_eq!(pdo_control_word(&s, 0x0F, 10, 10), Some(0x0F));
    assert_eq!(pdo_control_word(&s, 0x0F, 100, 100), Some(0x0F));
    assert_eq!(idle_control_word(&s), Some(QUICK_STOP_CONTROL_WORD));
    s.set_fault_state();
    assert_eq!(pdo_control_word(&s, 0x0F, 0, 0), None);
}

#[test]
fn stale_master_leads_to_quick_stop() {
    let mut s = PoulpeState::new();
    s.notify_init_success();
    s.process_command(0b0110);
    s.process_command(0b0111);
    s.process_command(0b1111);
    assert!(s.is_operation_enabled());
    let w = pdo_control_word(&s, 0x0F, 101, 0).unwrap();
    assert_eq!(w, QUICK_STOP_CONTROL_WORD);
    assert_eq!(pdo_control_word(&s, 0x0F, 0, 500), Some(QUICK_STOP_CONTROL_WORD));
    assert_eq!(CiA402Command::from_u16(w), CiA402Command::QuickStop);
    s.process_command(w);
    assert!(!s.is_operation_enabled());
}

#[test]
fn foe_upload_accounts_every_byte() {
    let mut o = FoEObject::new().unwrap();
    let chunk = vec![3u8; 116];
    let mut written_blocks = 0;
    for _ in 0..40 {
        let n = o.fill_buffer(&chunk);
        if n < chunk.len() {
            let block = o.last_block();
            assert!(block.iter().all(|b| *b == 3));
            assert_eq!(o.full_buffer_written(&chunk[n..]), chunk.len() - n);
            written_blocks += 1;
        }
        assert_eq!(o.no_written_bytes as usize + o.buffer.data_len, o.no_received_bytes as usize);
    }
    assert_eq!(written_blocks, 1);
    assert_eq!(o.no_received_bytes, 40 * 116);
    let last = o.last_block();
    assert!(last[..o.buffer.data_len].iter().all(|b| *b == 3));
    assert!(last[o.buffer.data_len..].iter().all(|b| *b == 0xFF));
    let staged = o.buffer.data_len as u32;
    let before = o.no_written_bytes;
    o.last_block_written();
    assert_eq!(o.no_written_bytes, before + staged);
    assert_eq!(o.no_written_bytes, o.no_received_bytes);
}
