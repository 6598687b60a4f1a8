use proxy::select::{needs_draw, select_slot};
use proxy::{
    Lb4Backend, Lb4Service, ServiceIdentifer, TableError, TableStore, V4Key, IPPROTO_TCP,
    IPPROTO_UDP, MAX_ENTRIES,
};

#[test]
fn slot_is_remainder_plus_one() {
    assert_eq!(select_slot(1, 0), Some(1));
    assert_eq!(select_slot(1, 12345), Some(1));
    assert_eq!(select_slot(3, 0), Some(1));
    assert_eq!(select_slot(3, 1), Some(2));
    assert_eq!(select_slot(3, 2), Some(3));
    assert_eq!(select_slot(3, 3), Some(1));
    assert_eq!(select_slot(7, 100), Some(3));
    assert_eq!(select_slot(u16::MAX, u32::MAX), Some(1));
    assert_eq!(select_slot(u16::MAX, 65534), Some(u16::MAX));
    assert_eq!(select_slot(1000, 4_000_000_999), Some(1000));
}

#[test]
fn no_slot_among_none() {
    assert_eq!(select_slot(0, 0), None);
    assert_eq!(select_slot(0, 1), None);
    assert_eq!(select_slot(0, u32::MAX), None);
}

#[test]
fn every_slot_has_a_seed() {
    for count in [1u16, 2, 3, 10, 255] {
        for slot in 1..=count {
            assert_eq!(select_slot(count, slot as u32 - 1), Some(slot));
            assert_eq!(select_slot(count, slot as u32 - 1 + 5 * count as u32), Some(slot));
        }
    }
}

#[test]
fn each_slot_once_in_a_row_of_seeds() {
    for (count, first) in [(1u16, 0u32), (7, 1000), (7, 1003), (255, u32::MAX - 254), (3, 5)] {
        let mut hits = vec![0u32; count as usize];
        for seed in first..=first + (count as u32 - 1) {
            let slot = select_slot(count, seed).unwrap();
            hits[slot as usize - 1] += 1;
        }
        assert_eq!(hits, vec![1u32; count as usize]);
    }
}

#[test]
fn only_tcp_needs_a_draw() {
    assert!(needs_draw(IPPROTO_TCP));
    assert!(!needs_draw(IPPROTO_UDP));
    assert!(!needs_draw(0));
    assert!(!needs_draw(u32::MAX));
}

#[test]
fn keys_pack_side_by_side() {
    assert_eq!(V4Key::base(0, 0).pack(), 0);
    assert_eq!(V4Key::slot(0, 0, 1).pack(), 1);
    assert_eq!(V4Key::slot(0, 1, 0).pack(), 0x1_0000);
    assert_eq!(V4Key::slot(1, 0, 0).pack(), 0x1_0000_0000);
    assert_eq!(V4Key::slot(0x0a00_0001, 0x0050, 0x0003).pack(), 0x0a00_0001_0050_0003);
    assert_eq!(V4Key::slot(u32::MAX, u16::MAX, u16::MAX).pack(), u64::MAX);
}

#[test]
fn key_builders() {
    assert_eq!(V4Key::base(7, 8), V4Key { address: 7, dport: 8, backend_slot: 0 });
    assert_eq!(V4Key::slot(7, 8, 9), V4Key { address: 7, dport: 8, backend_slot: 9 });
}

#[test]
fn record_builders() {
    assert_eq!(
        Lb4Service::base(3),
        Lb4Service {
            service_id: ServiceIdentifer { raw: 0 },
            count: 3,
            rev_nat_index: 0,
            flags: 0,
            flags2: 0
        }
    );
    assert_eq!(
        Lb4Service::slot(500),
        Lb4Service {
            service_id: ServiceIdentifer { raw: 500 },
            count: 0,
            rev_nat_index: 0,
            flags: 0,
            flags2: 0
        }
    );
    assert_eq!(Lb4Backend::new(1, 2, 6), Lb4Backend { address: 1, port: 2, proto: 6, flags: 0 });
}

#[test]
fn selector_reads_one_word_under_three_names() {
    let word = ServiceIdentifer { raw: 0x0102_0304 };
    assert_eq!(word.backend_id(), 0x0102_0304);
    assert_eq!(word.affinity_timeout(), 0x0102_0304);
    assert_eq!(word.l7_lb_proxy_port(), 0x0102_0304);
}

#[test]
fn new_store_is_empty() {
    let store = TableStore::new();
    assert_eq!(store.service_count(), 0);
    assert_eq!(store.backend_count(), 0);
    assert_eq!(store.get_service(V4Key::base(0, 0)), None);
    assert_eq!(store.get_backend(0), None);
}

#[test]
fn service_put_get_delete() {
    let mut store = TableStore::new();
    let key = V4Key::slot(10, 80, 2);
    assert_eq!(store.put_service(key, Lb4Service::slot(5)), Ok(()));
    assert_eq!(store.get_service(key), Some(Lb4Service::slot(5)));
    assert_eq!(store.service_count(), 1);
    assert_eq!(store.backend_count(), 0);
    // neighbours in each field are other keys
    assert_eq!(store.get_service(V4Key::slot(10, 80, 1)), None);
    assert_eq!(store.get_service(V4Key::slot(10, 81, 2)), None);
    assert_eq!(store.get_service(V4Key::slot(11, 80, 2)), None);
    assert_eq!(store.get_service(V4Key::slot(2, 10, 80)), None);
    // a second put replaces
    assert_eq!(store.put_service(key, Lb4Service::slot(6)), Ok(()));
    assert_eq!(store.get_service(key), Some(Lb4Service::slot(6)));
    assert_eq!(store.service_count(), 1);
    assert_eq!(store.delete_service(V4Key::slot(10, 80, 1)), None);
    assert_eq!(store.service_count(), 1);
    assert_eq!(store.delete_service(key), Some(Lb4Service::slot(6)));
    assert_eq!(store.get_service(key), None);
    assert_eq!(store.service_count(), 0);
    assert_eq!(store.delete_service(key), None);
}

#[test]
fn backend_put_get_delete() {
    let mut store = TableStore::new();
    assert_eq!(store.put_backend(500, Lb4Backend::new(1, 2, 6)), Ok(()));
    assert_eq!(store.put_backend(501, Lb4Backend::new(3, 4, 17)), Ok(()));
    assert_eq!(store.get_backend(500), Some(Lb4Backend::new(1, 2, 6)));
    assert_eq!(store.get_backend(501), Some(Lb4Backend::new(3, 4, 17)));
    assert_eq!(store.get_backend(502), None);
    assert_eq!(store.backend_count(), 2);
    assert_eq!(store.service_count(), 0);
    assert_eq!(store.put_backend(500, Lb4Backend::new(9, 9, 6)), Ok(()));
    assert_eq!(store.get_backend(500), Some(Lb4Backend::new(9, 9, 6)));
    assert_eq!(store.backend_count(), 2);
    assert_eq!(store.delete_backend(500), Some(Lb4Backend::new(9, 9, 6)));
    assert_eq!(store.delete_backend(500), None);
    assert_eq!(store.get_backend(501), Some(Lb4Backend::new(3, 4, 17)));
    assert_eq!(store.backend_count(), 1);
}

#[test]
fn tables_are_apart() {
    let mut store = TableStore::new();
    store.put_service(V4Key::base(0, 0), Lb4Service::base(1)).unwrap();
    assert_eq!(store.get_backend(0), None);
    store.put_backend(1, Lb4Backend::new(0, 0, 6)).unwrap();
    assert_eq!(store.get_service(V4Key::slot(0, 0, 1)), None);
    store.delete_backend(0);
    assert_eq!(store.get_service(V4Key::base(0, 0)), Some(Lb4Service::base(1)));
}

#[test]
fn full_service_table_turns_new_keys_down() {
    assert_eq!(MAX_ENTRIES, 65536);
    let mut store = TableStore::new();
    for slot in 0..=u16::MAX {
        assert_eq!(store.put_service(V4Key::slot(1, 1, slot), Lb4Service::slot(slot as u32)), Ok(()));
    }
    assert_eq!(store.service_count(), MAX_ENTRIES);
    assert_eq!(store.put_service(V4Key::base(2, 1), Lb4Service::base(1)), Err(TableError::Full));
    assert_eq!(store.get_service(V4Key::base(2, 1)), None);
    assert_eq!(store.service_count(), MAX_ENTRIES);
    // a key that is there can still be written
    assert_eq!(store.put_service(V4Key::slot(1, 1, 7), Lb4Service::slot(70)), Ok(()));
    assert_eq!(store.get_service(V4Key::slot(1, 1, 7)), Some(Lb4Service::slot(70)));
    // the backend table has room of its own
    assert_eq!(store.put_backend(1, Lb4Backend::new(1, 1, 6)), Ok(()));
    // one entry less makes room for one
    assert_eq!(store.delete_service(V4Key::slot(1, 1, 9)), Some(Lb4Service::slot(9)));
    assert_eq!(store.put_service(V4Key::base(2, 1), Lb4Service::base(1)), Ok(()));
    assert_eq!(store.put_service(V4Key::base(3, 1), Lb4Service::base(1)), Err(TableError::Full));
}

#[test]
fn full_backend_table_turns_new_ids_down() {
    let mut store = TableStore::new();
    for id in 0..MAX_ENTRIES as u32 {
        assert_eq!(store.put_backend(id, Lb4Backend::new(id, 1, 6)), Ok(()));
    }
    assert_eq!(store.backend_count(), MAX_ENTRIES);
    assert_eq!(store.put_backend(70000, Lb4Backend::new(1, 1, 6)), Err(TableError::Full));
    assert_eq!(store.get_backend(70000), None);
    assert_eq!(store.put_backend(5, Lb4Backend::new(55, 1, 6)), Ok(()));
    assert_eq!(store.get_backend(5), Some(Lb4Backend::new(55, 1, 6)));
    assert_eq!(store.put_service(V4Key::base(2, 1), Lb4Service::base(1)), Ok(()));
}
