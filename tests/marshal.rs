use cursed::{
    deliver, is_absent, null_ptr_error, reaches_limit, AddressSpace, ArcMarshaler, ArcRefMarshaler, BoolMarshaler,
    BoxMarshaler, BoxRefMarshaler, CopyMarshaler, FromForeign, MarshalError, ReturnType, Slice, StringMarshaler,
    ToForeign, UnitMarshaler, VecMarshaler, VecRefMarshaler,
};

#[test]
fn test() {}

#[test]
fn null_error_is_invalid_data() {
    let e = null_ptr_error();
    assert_eq!(e, MarshalError::InvalidData);
    assert_eq!(e.message(), "null pointer");
    assert!(is_absent(0));
    assert!(!is_absent(1));
}

#[test]
fn every_inbound_converter_rejects_absent_address() {
    let mut shared: AddressSpace<u32> = AddressSpace::new();
    let _h = shared.share(7);
    assert_eq!(ArcMarshaler::from_foreign(&shared, 0).err(), Some(MarshalError::InvalidData));
    assert_eq!(ArcRefMarshaler::from_foreign(&shared, 0).err(), Some(MarshalError::InvalidData));

    let mut unique: AddressSpace<u32> = AddressSpace::new();
    let _a = BoxMarshaler::to_foreign(&mut unique, 3);
    assert_eq!(BoxRefMarshaler::from_foreign(&unique, 0).err(), Some(MarshalError::InvalidData));
    assert_eq!(BoxMarshaler::from_foreign(&mut unique, 0).err(), Some(MarshalError::InvalidData));
    assert_eq!(*BoxRefMarshaler::from_foreign(&unique, 1).unwrap(), 3);

    let mut bufs: AddressSpace<u16> = AddressSpace::new();
    let _s = VecMarshaler::to_foreign(&mut bufs, vec![1, 2]);
    let absent: Slice<u16> = Slice::default();
    assert_eq!(VecRefMarshaler::from_foreign(&bufs, &absent).err(), Some(MarshalError::InvalidData));
    assert_eq!(VecMarshaler::release(&mut bufs, Slice::new(0, 2)).err(), Some(MarshalError::InvalidData));

    let text: AddressSpace<u8> = AddressSpace::new();
    assert_eq!(StringMarshaler::from_foreign(&text, 0).err(), Some(MarshalError::InvalidData));
    let mut text2: AddressSpace<u8> = AddressSpace::new();
    assert_eq!(StringMarshaler::release(&mut text2, 0).err(), Some(MarshalError::InvalidData));
}

#[test]
fn shared_round_trip_keeps_count() {
    let mut space: AddressSpace<String> = AddressSpace::new();
    let h = space.share("hello".to_string());
    let control = space.share("hello".to_string());
    let before = space.strong_count(&h);
    let addr = ArcMarshaler::<String>::to_foreign(h);
    assert_eq!(addr, 1);
    let back = ArcMarshaler::from_foreign(&space, addr).unwrap();
    assert_eq!(back.addr(), 1);
    assert_eq!(space.borrow_shared(back.addr()), "hello");
    assert_eq!(space.strong_count(&back), before);
    assert_eq!(space.strong_count(&back), space.strong_count(&control));
}

#[test]
fn shared_reads_then_reclaim_drop_one() {
    let mut space: AddressSpace<u64> = AddressSpace::new();
    let h = space.share(42);
    let keep = space.clone_shared(&h);
    assert_eq!(space.strong_count(&keep), 2);
    let addr = ArcMarshaler::<u64>::to_foreign(h);
    for _ in 0..3 {
        assert_eq!(*ArcRefMarshaler::from_foreign(&space, addr).unwrap(), 42);
    }
    assert_eq!(space.strong_count(&keep), 2);
    let reclaimed = ArcMarshaler::from_foreign(&space, addr).unwrap();
    space.release_shared(reclaimed);
    assert_eq!(space.strong_count(&keep), 1);
}

#[test]
fn shared_last_owner_frees() {
    let mut space: AddressSpace<u64> = AddressSpace::new();
    let h = space.share(9);
    let addr = ArcMarshaler::<u64>::to_foreign(h);
    assert_eq!(*ArcRefMarshaler::from_foreign(&space, addr).unwrap(), 9);
    let reclaimed = ArcMarshaler::from_foreign(&space, addr).unwrap();
    space.release_shared(reclaimed);
    let again = space.share(10);
    assert_eq!(again.addr(), 2);
}

#[test]
fn text_round_trip() {
    let mut space: AddressSpace<u8> = AddressSpace::new();
    for s in ["hello", "", "grüße, 世界"] {
        let addr = StringMarshaler::to_foreign(&mut space, s).unwrap();
        assert_eq!(StringMarshaler::from_foreign(&space, addr).unwrap(), s);
        assert_eq!(StringMarshaler::release(&mut space, addr), Ok(()));
    }
}

#[test]
fn text_with_terminator_is_refused_without_allocation() {
    let mut space: AddressSpace<u8> = AddressSpace::new();
    assert_eq!(StringMarshaler::to_foreign(&mut space, "a\0b"), Err(MarshalError::EncodingError));
    let addr = StringMarshaler::to_foreign(&mut space, "ok").unwrap();
    assert_eq!(addr, 1);
    assert_eq!(MarshalError::EncodingError.message(), "text contains a nul byte");
}

#[test]
fn text_invalid_bytes_are_replaced() {
    let mut space: AddressSpace<u8> = AddressSpace::new();
    let bad = VecMarshaler::to_foreign(&mut space, vec![b'a', 0xff, b'b', 0, b'z']);
    assert_eq!(StringMarshaler::from_foreign(&space, bad.data).unwrap(), "a\u{fffd}b");
    let unterminated = VecMarshaler::to_foreign(&mut space, vec![b'x', b'y']);
    assert_eq!(StringMarshaler::from_foreign(&space, unterminated.data).unwrap(), "xy");
}

#[test]
fn buffer_release_frees_original_count() {
    let mut space: AddressSpace<i32> = AddressSpace::new();
    let s = VecMarshaler::to_foreign(&mut space, vec![5, 6, 7, 8]);
    assert_eq!(s.len, 4);
    assert_eq!(VecRefMarshaler::from_foreign(&space, &s).unwrap(), &[5, 6, 7, 8]);
    assert_eq!(VecMarshaler::release(&mut space, s), Ok(4));
    let empty = VecMarshaler::to_foreign(&mut space, Vec::new());
    assert_eq!(empty.data, 2);
    assert_eq!(VecMarshaler::release(&mut space, empty), Ok(0));
}

#[test]
fn slice_box_round_trip() {
    let mut space: AddressSpace<char> = AddressSpace::new();
    let s = Slice::from_box(&mut space, vec!['a', 'b']);
    assert_eq!(s.data, 1);
    assert_eq!(s.into_box(&mut space), vec!['a', 'b']);
    let d: Slice<char> = Slice::default();
    assert_eq!((d.data, d.len), (0, 0));
    assert_eq!(<VecMarshaler<char> as ReturnType>::foreign_default().data, 0);
}

#[test]
fn box_reclaim_returns_value() {
    let mut space: AddressSpace<Vec<u8>> = AddressSpace::new();
    let addr = BoxMarshaler::to_foreign(&mut space, vec![1, 2, 3]);
    assert_eq!(addr, 1);
    assert_eq!(BoxRefMarshaler::from_foreign(&space, addr).unwrap(), &vec![1, 2, 3]);
    assert_eq!(BoxMarshaler::from_foreign(&mut space, addr).unwrap(), vec![1, 2, 3]);
}

#[test]
fn bool_mapping() {
    assert_eq!(<BoolMarshaler as ToForeign<bool, u8>>::to_foreign(true), Ok(1));
    assert_eq!(<BoolMarshaler as ToForeign<bool, u8>>::to_foreign(false), Ok(0));
    assert_eq!(<BoolMarshaler as FromForeign<u8, bool>>::from_foreign(0), Ok(false));
    for n in [1u8, 2, 127, 255] {
        assert_eq!(<BoolMarshaler as FromForeign<u8, bool>>::from_foreign(n), Ok(true));
    }
    assert_eq!(<BoolMarshaler as ReturnType>::foreign_default(), 0);
}

#[test]
fn copy_and_unit_pass_through() {
    assert_eq!(<CopyMarshaler<i64> as ToForeign<i64, i64>>::to_foreign(-3), Ok(-3));
    assert_eq!(<CopyMarshaler<u16> as FromForeign<u16, u16>>::from_foreign(65535), Ok(65535));
    assert_eq!(<UnitMarshaler as ToForeign<(), ()>>::to_foreign(()), Ok(()));
    assert_eq!(<UnitMarshaler as FromForeign<(), ()>>::from_foreign(()), Ok(()));
}

#[test]
fn boundary_call_end_to_end() {
    let mut space: AddressSpace<u64> = AddressSpace::new();
    let h = space.share(10);
    let addr = ArcMarshaler::<u64>::to_foreign(h);
    let ok = reaches_limit(&space, addr, 5);
    assert_eq!(ok.value, 1);
    assert!(ok.error.is_none());
    let low = reaches_limit(&space, addr, 11);
    assert_eq!(low.value, 0);
    assert!(low.error.is_none());
    let failed = reaches_limit(&space, 0, 5);
    assert_eq!(failed.value, 0);
    assert!(failed.error.unwrap().contains("null pointer"));
}

#[test]
fn deliver_uses_fallback_on_error() {
    let o = deliver(Err(MarshalError::EncodingError), 7u32);
    assert_eq!(o.value, 7);
    assert_eq!(o.error.as_deref(), Some("text contains a nul byte"));
    let o = deliver(Ok(3u32), 7u32);
    assert_eq!(o.value, 3);
    assert!(o.error.is_none());
}
