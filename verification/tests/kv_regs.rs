use caliptra_cfi::kv::{ClearSecretsReadVal, ClearSecretsWriteVal, KvctrlReadVal, KvctrlWriteVal};

#[test]
fn kvctrl_read_val_round_trips_through_u32() {
    let word = 0x13572468u32;
    assert_eq!(u32::from(KvctrlReadVal::from(word)), word);
    assert_eq!(u32::from(KvctrlWriteVal::from(word)), word);
}

#[test]
fn clear_secrets_round_trips_through_u32() {
    let word = 0xfedcba98u32;
    assert_eq!(u32::from(ClearSecretsReadVal::from(word)), word);
    assert_eq!(u32::from(ClearSecretsWriteVal::from(word)), word);
}

#[test]
fn kvctrl_read_val_extracts_each_field() {
    let word = 1u32 | (1 << 2) | (21 << 4) | (0xa5 << 9) | (9 << 17);
    let val = KvctrlReadVal::from(word);
    assert!(val.lock_wr());
    assert!(!val.lock_use());
    assert!(val.clear());
    assert!(!val.rsvd0());
    assert_eq!(val.rsvd1(), 21);
    assert_eq!(val.dest_valid(), 0xa5);
    assert_eq!(val.last_dword(), 9);
}

#[test]
fn kvctrl_read_val_of_zero_has_no_bits_set() {
    let val = KvctrlReadVal::from(0u32);
    assert!(!val.lock_wr());
    assert!(!val.lock_use());
    assert!(!val.clear());
    assert!(!val.rsvd0());
    assert_eq!(val.rsvd1(), 0);
    assert_eq!(val.dest_valid(), 0);
    assert_eq!(val.last_dword(), 0);
}

#[test]
fn kvctrl_read_val_field_widths_mask_out_neighbours() {
    let val = KvctrlReadVal::from(0xffffffffu32);
    assert!(val.lock_wr());
    assert!(val.lock_use());
    assert!(val.clear());
    assert!(val.rsvd0());
    assert_eq!(val.rsvd1(), 0x1f);
    assert_eq!(val.dest_valid(), 0xff);
    assert_eq!(val.last_dword(), 0xf);
}

#[test]
fn kvctrl_modify_keeps_the_word() {
    let word = 0x00022006u32;
    let write_val = KvctrlReadVal::from(word).modify();
    assert_eq!(u32::from(write_val), word);
}

#[test]
fn kvctrl_write_val_sets_single_bits() {
    let val = KvctrlWriteVal::from(0u32);
    assert_eq!(u32::from(val.lock_wr(true)), 1);
    assert_eq!(u32::from(val.lock_use(true)), 2);
    assert_eq!(u32::from(val.clear(true)), 4);
    assert_eq!(u32::from(val.rsvd0(true)), 8);
    let chained = val.lock_wr(true).lock_use(true).clear(true);
    assert_eq!(u32::from(chained), 7);
}

#[test]
fn kvctrl_write_val_clears_single_bits() {
    let val = KvctrlWriteVal::from(0xffffffffu32);
    assert_eq!(u32::from(val.lock_wr(false)), 0xfffffffe);
    assert_eq!(u32::from(val.lock_use(false)), 0xfffffffd);
    assert_eq!(u32::from(val.clear(false)), 0xfffffffb);
    assert_eq!(u32::from(val.rsvd0(false)), 0xfffffff7);
}

#[test]
fn kvctrl_write_val_rsvd1_masks_its_value() {
    let val = KvctrlWriteVal::from(0u32);
    assert_eq!(u32::from(val.rsvd1(0x1f)), 0x1f << 4);
    // Bits of the value beyond the field's width are dropped.
    assert_eq!(u32::from(val.rsvd1(0xff)), 0x1f << 4);
    let full = KvctrlWriteVal::from(0xffffffffu32);
    assert_eq!(u32::from(full.rsvd1(0)), 0xffffffff & !(0x1f << 4));
}

#[test]
fn kvctrl_write_val_setters_leave_other_bits_alone() {
    let word = 0x00022006u32;
    let val = KvctrlWriteVal::from(word);
    assert_eq!(u32::from(val.lock_wr(true)), word | 1);
    assert_eq!(u32::from(val.lock_use(false)), word & !2);
}

#[test]
fn clear_secrets_read_val_extracts_its_bits() {
    let val = ClearSecretsReadVal::from(0b01u32);
    assert!(val.wr_debug_values());
    assert!(!val.sel_debug_value());
    let val = ClearSecretsReadVal::from(0b10u32);
    assert!(!val.wr_debug_values());
    assert!(val.sel_debug_value());
}

#[test]
fn clear_secrets_modify_keeps_the_word() {
    let word = 0b11u32;
    assert_eq!(u32::from(ClearSecretsReadVal::from(word).modify()), word);
}

#[test]
fn clear_secrets_write_val_sets_and_clears_its_bits() {
    let val = ClearSecretsWriteVal::from(0u32);
    assert_eq!(u32::from(val.wr_debug_values(true)), 0b01);
    assert_eq!(u32::from(val.sel_debug_value(true)), 0b10);
    assert_eq!(u32::from(val.wr_debug_values(true).sel_debug_value(true)), 0b11);
    let full = ClearSecretsWriteVal::from(0xffffffffu32);
    assert_eq!(u32::from(full.wr_debug_values(false)), 0xfffffffe);
    assert_eq!(u32::from(full.sel_debug_value(false)), 0xfffffffd);
}
