use srxl2::device::DeviceId;
use srxl2::receiver::{HoldCounters, Received, ReceiverEntry, ReceiverInfo};

const FULL_RANGE: u8 = 0x02;

fn three_receivers(dbm: [i8; 3], info: [u8; 3]) -> ReceiverInfo {
    let mut rx = ReceiverInfo::new(2);
    assert_eq!(rx.add_receiver(DeviceId(0x21), 0, info[0]), Some(0));
    assert_eq!(rx.add_receiver(DeviceId(0x22), 0, info[1]), Some(1));
    assert_eq!(rx.add_receiver(DeviceId(0x10), 1, info[2]), Some(2));
    for (i, d) in dbm.iter().enumerate() {
        assert!(rx.report_channel_data(i, *d, 0, 0x0F));
    }
    rx
}

fn ranked_dbm(rx: &ReceiverInfo) -> Vec<i8> {
    rx.rcvr_sorted().iter().map(|e| e.rssi_dbm).collect()
}

#[test]
fn ranking_is_by_descending_dbm() {
    let rx = three_receivers([-70, -50, -90], [FULL_RANGE; 3]);
    assert_eq!(ranked_dbm(&rx), vec![-50, -70, -90]);
    assert_eq!(rx.best_rssi_dbm, -50);
    assert_eq!(rx.rcvr_sorted_idx, vec![1, 0, 2]);
    assert_eq!(rx.rcvr_sort_insert, 3);
}

#[test]
fn full_range_receivers_rank_first() {
    let rx = three_receivers([-70, -50, -90], [0, 0, FULL_RANGE]);
    assert_eq!(ranked_dbm(&rx), vec![-90, -50, -70]);
    assert_eq!(rx.rcvr_sort_insert, 1);
    assert_eq!(rx.best_rssi_dbm, -50);
}

#[test]
fn equal_signals_rank_by_index() {
    let rx = three_receivers([-60, -60, -60], [FULL_RANGE; 3]);
    assert_eq!(rx.rcvr_sorted_idx, vec![0, 1, 2]);
}

#[test]
fn fresh_tracker_is_empty() {
    let rx = ReceiverInfo::new(1);
    assert_eq!(rx.rcvr_count(), 0);
    assert_eq!(rx.max_rcvrs, 2);
    assert_eq!(rx.best_rssi_dbm, -128);
    assert_eq!(rx.best_rssi_pct, 0);
    assert_eq!((rx.loss_countdown, rx.loss_hold_count, rx.frame_losses, rx.holds), (45, 45, 0, 0));
    assert!(rx.telem_rcvr().is_none());
    assert!(rx.bind_rcvr().is_none());
    assert!(rx.rcvr_sorted().is_empty());
    assert!(!rx.all_faded());
}

#[test]
fn only_receivers_are_taken() {
    let mut rx = ReceiverInfo::new(1);
    assert_eq!(rx.add_receiver(DeviceId(0x30), 0, 0), None);
    assert_eq!(rx.add_receiver(DeviceId(0x0F), 0, 0), None);
    assert_eq!(rx.add_receiver(DeviceId(0x21), 8, 0), None);
    assert_eq!(rx.rcvr_count(), 0);
    assert_eq!(rx.add_receiver(DeviceId(0x21), 3, 0x01), Some(0));
    assert_eq!(
        rx.rcvr_entry[0],
        ReceiverEntry {
            device_id: DeviceId(0x21),
            bus_bits: 0x08,
            info: 0x01,
            rssi_received: Received::Neither,
            rssi_dbm: -128,
            rssi_pct: 0,
            fades: 0,
            channel_mask: 0,
        }
    );
    assert_eq!(rx.rx_bus_bits, 0x08);
}

#[test]
fn a_known_receiver_gains_a_bus() {
    let mut rx = ReceiverInfo::new(2);
    assert_eq!(rx.add_receiver(DeviceId(0x21), 0, 0), Some(0));
    assert_eq!(rx.add_receiver(DeviceId(0x21), 1, 0x07), Some(0));
    assert_eq!(rx.rcvr_count(), 1);
    assert_eq!(rx.rcvr_entry[0].bus_bits, 0x03);
    assert_eq!(rx.rcvr_entry[0].info, 0);
    assert_eq!(rx.find(DeviceId(0x21)), Some(0));
    assert_eq!(rx.find(DeviceId(0x22)), None);
}

#[test]
fn a_full_tracker_takes_no_new_receiver() {
    let mut rx = ReceiverInfo::new(1);
    assert_eq!(rx.add_receiver(DeviceId(0x21), 0, 0), Some(0));
    assert_eq!(rx.add_receiver(DeviceId(0x22), 0, 0), Some(1));
    assert_eq!(rx.add_receiver(DeviceId(0x23), 0, 0), None);
    assert_eq!(rx.rcvr_count(), 2);
}

#[test]
fn a_report_for_no_receiver_is_refused() {
    let mut rx = three_receivers([-70, -50, -90], [FULL_RANGE; 3]);
    assert!(!rx.report_channel_data(3, -10, 0, 1));
    assert_eq!(rx.best_rssi_dbm, -50);
    assert!(!rx.set_bind_rcvr(3));
    assert!(rx.set_bind_rcvr(2));
    assert_eq!(rx.bind_rcvr().unwrap().device_id, DeviceId(0x10));
}

#[test]
fn a_report_sets_dbm_or_percent() {
    let mut rx = ReceiverInfo::new(1);
    rx.add_receiver(DeviceId(0x21), 0, 0);
    assert!(rx.report_channel_data(0, -64, 3, 0xFF));
    assert_eq!(rx.rcvr_entry[0].rssi_received, Received::Dbm);
    assert_eq!((rx.rcvr_entry[0].rssi_dbm, rx.rcvr_entry[0].fades, rx.rcvr_entry[0].channel_mask), (-64, 3, 0xFF));
    assert!(rx.report_channel_data(0, 80, 4, 0x0F));
    assert_eq!(rx.rcvr_entry[0].rssi_received, Received::Both);
    assert_eq!((rx.rcvr_entry[0].rssi_dbm, rx.rcvr_entry[0].rssi_pct), (-64, 80));
    assert_eq!((rx.best_rssi_dbm, rx.best_rssi_pct), (-64, 80));
    assert_eq!(Received::Neither.with_pct(), Received::Pct);
    assert_eq!(Received::Pct.with_dbm(), Received::Both);
}

#[test]
fn telemetry_moves_to_the_best_receiver_on_a_fade() {
    let mut rx = three_receivers([-70, -50, -90], [FULL_RANGE; 3]);
    assert_eq!(rx.telem_rcvr_idx, 0);
    // Receiver 0 fades: its channel mask is empty.
    assert!(rx.report_channel_data(0, -95, 1, 0));
    assert_eq!(rx.telem_rcvr_idx, 1);
    assert_eq!(rx.telem_rcvr().unwrap().device_id, DeviceId(0x22));
    // A report from a receiver that still delivers leaves the choice alone.
    assert!(rx.report_channel_data(2, -40, 0, 0x0F));
    assert_eq!(rx.telem_rcvr_idx, 1);
    assert_eq!(rx.rcvr_sorted_idx, vec![2, 1, 0]);
    assert!(!rx.all_faded());
}

#[test]
fn all_faded_needs_every_mask_empty() {
    let mut rx = three_receivers([-70, -50, -90], [FULL_RANGE; 3]);
    for i in 0..3 {
        rx.report_channel_data(i, -99, 1, 0);
    }
    assert!(rx.all_faded());
    rx.report_channel_data(1, -50, 1, 1);
    assert!(!rx.all_faded());
}

#[test]
fn five_losses_are_one_hold() {
    let mut rx = ReceiverInfo::new(1);
    rx.set_hold_threshold(5);
    assert_eq!((rx.loss_hold_count, rx.loss_countdown), (5, 5));
    let holds: Vec<bool> = (0..5).map(|_| rx.update_comm_stats(true)).collect();
    assert_eq!(holds, vec![false, false, false, false, true]);
    assert_eq!(rx.holds, 1);
    assert_eq!(rx.loss_countdown, 5);
    assert_eq!(rx.frame_losses, 0);
}

#[test]
fn four_losses_and_a_good_frame_are_no_hold() {
    let mut rx = ReceiverInfo::new(1);
    rx.set_hold_threshold(5);
    for left in [4u8, 3, 2, 1] {
        assert!(!rx.update_comm_stats(true));
        assert_eq!(rx.loss_countdown, left);
    }
    assert_eq!(rx.frame_losses, 4);
    assert!(!rx.update_comm_stats(false));
    assert_eq!(rx.holds, 0);
    assert_eq!(rx.loss_countdown, 5);
    assert_eq!(rx.frame_losses, 4);
}

#[test]
fn ten_losses_are_two_holds() {
    let mut rx = ReceiverInfo::new(1);
    rx.set_hold_threshold(5);
    let count = (0..10).filter(|_| rx.update_comm_stats(true)).count();
    assert_eq!(count, 2);
    assert_eq!(rx.holds, 2);
}

#[test]
fn hold_counters_step_exactly() {
    let c = HoldCounters { loss_countdown: 1, loss_hold_count: 3, frame_losses: 10, holds: 7 };
    assert_eq!(
        c.tick(true),
        HoldCounters { loss_countdown: 3, loss_hold_count: 3, frame_losses: 8, holds: 8 }
    );
    assert_eq!(
        c.tick(false),
        HoldCounters { loss_countdown: 3, loss_hold_count: 3, frame_losses: 10, holds: 7 }
    );
    let d = HoldCounters { loss_countdown: 3, loss_hold_count: 3, frame_losses: 65535, holds: 65535 };
    assert_eq!(
        d.tick(true),
        HoldCounters { loss_countdown: 2, loss_hold_count: 3, frame_losses: 65535, holds: 65535 }
    );
    let e = HoldCounters { loss_countdown: 1, loss_hold_count: 3, frame_losses: 1, holds: 65535 };
    assert_eq!(
        e.tick(true),
        HoldCounters { loss_countdown: 3, loss_hold_count: 3, frame_losses: 0, holds: 65535 }
    );
}

#[test]
fn threshold_zero_asks_for_the_default() {
    let mut rx = ReceiverInfo::new(1);
    rx.set_hold_threshold(7);
    rx.update_comm_stats(true);
    rx.set_hold_threshold(0);
    assert_eq!((rx.loss_hold_count, rx.loss_countdown), (45, 45));
    assert_eq!(rx.frame_losses, 1);
    rx.set_hold_threshold(1);
    assert!(rx.update_comm_stats(true));
}

#[test]
fn clearing_forgets_losses_holds_and_fades() {
    let mut rx = three_receivers([-70, -50, -90], [FULL_RANGE; 3]);
    rx.set_hold_threshold(2);
    rx.report_channel_data(1, -50, 9, 1);
    rx.update_comm_stats(true);
    rx.update_comm_stats(true);
    rx.update_comm_stats(true);
    assert_eq!((rx.holds, rx.frame_losses, rx.loss_countdown), (1, 1, 1));
    rx.clear_comm_stats();
    assert_eq!((rx.holds, rx.frame_losses, rx.loss_countdown, rx.loss_hold_count), (0, 0, 2, 2));
    assert_eq!(rx.rcvr_entry[1].fades, 0);
    assert_eq!(rx.rcvr_entry[1].rssi_dbm, -50);
    assert_eq!(ranked_dbm(&rx), vec![-50, -70, -90]);
}

#[test]
fn receiver_entry_info() {
    let e = ReceiverEntry::fresh(DeviceId(0x21), 1, 0x03);
    assert!(e.full_range());
    assert!(e.info_flags().has(srxl2::device::DeviceInfo::TelemTxEnabled));
    let r = e.reported(-5, 2, 3);
    assert_eq!((r.rssi_dbm, r.fades, r.channel_mask, r.rssi_received), (-5, 2, 3, Received::Dbm));
    assert!(!ReceiverEntry::fresh(DeviceId(0x21), 1, 0x01).full_range());
}
