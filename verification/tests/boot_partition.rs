use patina::error::EfiError;
use patina_components::boot_partition::{
    bp_write, chunk_bytes, commit_packet, download_packet, identify_packet, BpWrite,
};
use patina_components::pass_thru::{
    Completion, NvmeAction, NvmeReply, Transfer, IDENTIFY_BUFFER_BYTES, NVME_ADMIN_NAMESPACE_ID, ID_CTRL_OFFSET_FWUG,
    ID_CTRL_OFFSET_MDTS,
};
use patina_components::status::Next;
use r_efi::efi;

fn ok() -> NvmeReply {
    NvmeReply::status_only(efi::Status::SUCCESS.as_usize())
}

fn controller_data(mdts: u8, fwug: u8) -> NvmeReply {
    let mut data = vec![0u8; IDENTIFY_BUFFER_BYTES];
    data[ID_CTRL_OFFSET_MDTS] = mdts;
    data[ID_CTRL_OFFSET_FWUG] = fwug;
    NvmeReply {
        status: efi::Status::SUCCESS.as_usize(),
        completion: Completion::zero(),
        controller_data: data,
    }
}

fn perform(next: Next<BpWrite, NvmeAction, ()>) -> (BpWrite, NvmeAction) {
    match next {
        Next::Perform(m, a) => (m, a),
        Next::Finished(r) => panic!("expected another call, got {:?}", r),
    }
}

fn finished(next: Next<BpWrite, NvmeAction, ()>) -> Result<(), EfiError> {
    match next {
        Next::Finished(r) => r,
        Next::Perform(_, a) => panic!("expected the write to finish, got {:?}", a),
    }
}

/// Drives a write to the point where it waits for the Identify Controller data.
fn until_identify(bank: u8, len: usize) -> BpWrite {
    let (m, a) = perform(bp_write(bank, len));
    assert_eq!(a, NvmeAction::LocateController);
    let (m, a) = perform(m.step(&ok()));
    assert_eq!(a, NvmeAction::OpenPassThru);
    let (m, a) = perform(m.step(&ok()));
    assert_eq!(a, NvmeAction::Submit { packet: identify_packet(), transfer: Transfer::ControllerData, namespace_id: NVME_ADMIN_NAMESPACE_ID, blocking: true });
    m
}

#[test]
fn bp_write_rejects_bank_other_than_zero_or_one() {
    assert_eq!(finished(bp_write(2, 4096)), Err(EfiError::InvalidParameter));
}

#[test]
fn identify_packet_asks_for_controller_data() {
    let p = identify_packet();
    assert_eq!(p.nvme_cmd.cdw0, 0x06);
    assert_eq!(p.nvme_cmd.cdw10, 0x01);
    assert_eq!(p.nvme_cmd.flags, 1 << 2);
    assert_eq!(p.transfer_length, 4096);
}

#[test]
fn chunk_size_follows_fwug_and_mdts() {
    assert_eq!(chunk_bytes(0, 0), 4096);
    assert_eq!(chunk_bytes(0, 0xFF), 4096);
    assert_eq!(chunk_bytes(0, 2), 8192);
    assert_eq!(chunk_bytes(0, 254), 254 * 4096);
    // MDTS 1 caps transfers at 8 KiB.
    assert_eq!(chunk_bytes(1, 4), 8192);
    // MDTS of 20 and more means no limit.
    assert_eq!(chunk_bytes(20, 4), 16384);
    assert_eq!(chunk_bytes(19, 254), 254 * 4096);
}

#[test]
fn download_packet_carries_numd_and_offset_in_dwords() {
    let p = download_packet(8192, 3);
    assert_eq!(p.nvme_cmd.cdw0, 0x11);
    assert_eq!(p.nvme_cmd.cdw10, 8192 / 4 - 1);
    assert_eq!(p.nvme_cmd.cdw11, 3 * 8192 / 4);
    assert_eq!(p.nvme_cmd.flags, 0b1100);
    assert_eq!(p.command_timeout, 50_000_000);
    assert_eq!(p.transfer_length, 8192);
}

#[test]
fn commit_packet_selects_boot_partition() {
    assert_eq!(commit_packet(0).nvme_cmd.cdw10, 0x30);
    assert_eq!(commit_packet(1).nvme_cmd.cdw10, 0x8000_0030);
    assert_eq!(commit_packet(1).nvme_cmd.cdw0, 0x10);
    assert_eq!(commit_packet(1).command_timeout, 600_000_000);
}

#[test]
fn bp_write_downloads_each_chunk_then_commits() {
    let m = until_identify(1, 3 * 8192);
    let (m, a) = perform(m.step(&controller_data(0, 2)));
    assert_eq!(a, NvmeAction::Submit { packet: download_packet(8192, 0), transfer: Transfer::Data { start: 0, len: 8192 }, namespace_id: NVME_ADMIN_NAMESPACE_ID, blocking: true });
    let (m, a) = perform(m.step(&ok()));
    assert_eq!(a, NvmeAction::Submit { packet: download_packet(8192, 1), transfer: Transfer::Data { start: 8192, len: 8192 }, namespace_id: NVME_ADMIN_NAMESPACE_ID, blocking: true });
    let (m, a) = perform(m.step(&ok()));
    assert_eq!(a, NvmeAction::Submit { packet: download_packet(8192, 2), transfer: Transfer::Data { start: 16384, len: 8192 }, namespace_id: NVME_ADMIN_NAMESPACE_ID, blocking: true });
    let (m, a) = perform(m.step(&ok()));
    assert_eq!(a, NvmeAction::Submit { packet: commit_packet(1), transfer: Transfer::NoData, namespace_id: NVME_ADMIN_NAMESPACE_ID, blocking: true });
    assert_eq!(finished(m.step(&ok())), Ok(()));
}

#[test]
fn bp_write_of_no_data_commits_directly() {
    let m = until_identify(0, 0);
    let (m, a) = perform(m.step(&controller_data(0, 0)));
    assert_eq!(a, NvmeAction::Submit { packet: commit_packet(0), transfer: Transfer::NoData, namespace_id: NVME_ADMIN_NAMESPACE_ID, blocking: true });
    assert_eq!(finished(m.step(&ok())), Ok(()));
}

#[test]
fn bp_write_rejects_length_not_multiple_of_chunk() {
    let m = until_identify(0, 4096 + 1);
    assert_eq!(finished(m.step(&controller_data(0, 0))), Err(EfiError::InvalidParameter));
}

#[test]
fn bp_write_identify_rejection_is_device_error() {
    let m = until_identify(0, 4096);
    let mut reply = controller_data(0, 0);
    reply.completion.dw3 = 1 << 17;
    assert_eq!(finished(m.step(&reply)), Err(EfiError::DeviceError));
}

#[test]
fn bp_write_download_failure_stops_before_commit() {
    let m = until_identify(0, 2 * 4096);
    let (m, _) = perform(m.step(&controller_data(0, 0)));
    let reply = NvmeReply::status_only(efi::Status::TIMEOUT.as_usize());
    assert_eq!(finished(m.step(&reply)), Err(EfiError::Timeout));
}

#[test]
fn bp_write_commit_rejection_is_device_error() {
    let m = until_identify(1, 4096);
    let (m, _) = perform(m.step(&controller_data(0, 0)));
    let (m, a) = perform(m.step(&ok()));
    assert_eq!(a, NvmeAction::Submit { packet: commit_packet(1), transfer: Transfer::NoData, namespace_id: NVME_ADMIN_NAMESPACE_ID, blocking: true });
    let mut reply = ok();
    reply.completion.dw3 = 0x7 << 17;
    assert_eq!(finished(m.step(&reply)), Err(EfiError::DeviceError));
}
