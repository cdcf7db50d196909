use geonetrs::consts::version;
use geonetrs::DecodeError;
use geonetrs::consts::PAYLOAD_SIZE;
use geonetrs::GNAddress;
use geonetrs::LocTE;
use geonetrs::MACAddress;
use geonetrs::StationType;

fn all_station_types() -> Vec<StationType> {
    vec![
        StationType::Unknown,
        StationType::Pedestrian,
        StationType::Cyclist,
        StationType::Moped,
        StationType::Motorcycle,
        StationType::PassengerCar,
        StationType::Bus,
        StationType::LightTruck,
        StationType::HeavyTruck,
        StationType::Trailer,
        StationType::SpecialVehicle,
        StationType::Tram,
        StationType::RoadSideUnit,
    ]
}

#[test]
fn roundtrip_every_station_type() {
    for t in all_station_types() {
        for manual in [false, true] {
            let mut a = GNAddress::default();
            a.set_manual(manual);
            a.set_station_type(t);
            a.set_mac_address(MACAddress([0xde, 0xad, 0xbe, 0xef, 0x01, 0x02]));
            let b = GNAddress::decode(a.encode());
            assert_eq!(a, b);
        }
    }
}

#[test]
fn decode_reserved_codes_gives_unknown() {
    for code in [12u8, 13, 14] {
        for high in [0u8, 0x80] {
            let buf: [u8; 8] = [(code << 1) | high, 0, 1, 2, 3, 4, 5, 6];
            let a = GNAddress::decode(buf);
            assert_eq!(a.get_station_type(), StationType::Unknown);
            assert_eq!(a.is_manual(), high != 0);
            assert_eq!(a.get_mac_address(), MACAddress([1, 2, 3, 4, 5, 6]));
        }
    }
}

#[test]
fn toggling_manual_changes_only_bit7_of_byte0() {
    for t in all_station_types() {
        let mut a = GNAddress::default();
        a.set_station_type(t);
        a.set_mac_address(MACAddress([9, 8, 7, 6, 5, 4]));
        let e1 = a.encode();
        a.set_manual(true);
        let e2 = a.encode();
        assert_eq!(e1[0] ^ e2[0], 0x80);
        assert_eq!(&e1[1..], &e2[1..]);
    }
}

#[test]
fn default_address_encodes_to_zero_bytes() {
    let a = GNAddress::default();
    assert_eq!(a.encode(), [0u8; 8]);
}

#[test]
fn motorcycle_scenario_exact_bytes() {
    let mut a = GNAddress::default();
    a.set_manual(true);
    a.set_station_type(StationType::Motorcycle);
    a.set_mac_address(MACAddress([2, 1, 4, 3, 6, 5]));

    let buf = a.encode();
    assert_eq!(buf[0], 0b1000_1000);
    assert_eq!(buf[0], 0x88);
    assert_eq!(buf[1], 0x00);
    assert_eq!(&buf[2..], &[2, 1, 4, 3, 6, 5]);

    let b = GNAddress::decode(buf);
    assert!(b.is_manual());
    assert_eq!(b.get_station_type(), StationType::Motorcycle);
    assert_eq!(b.get_mac_address(), MACAddress([2, 1, 4, 3, 6, 5]));
}

#[test]
fn locte_new_starts_at_unknown_zero() {
    let mut key = GNAddress::default();
    key.set_manual(true);
    key.set_station_type(StationType::Bus);
    key.set_mac_address(MACAddress([1, 2, 3, 4, 5, 6]));

    let e = LocTE::new(key);
    assert!(e.gnaddr.is_manual());
    assert_eq!(e.gnaddr.get_station_type(), StationType::Bus);
    assert_eq!(e.lladdr, MACAddress([0; 6]));
    assert_eq!(e.station, StationType::Unknown);
    assert_eq!(e.version, 0);
    assert_eq!(e.lpv, 0);
    assert!(!e.ls_pending);
    assert!(!e.neighbour);
    assert_eq!(e.dpl, 0);
    assert_eq!(e.timestamp, 0);
    assert_eq!(e.pdr, 0);
}

#[test]
fn decode_slice_checks_length() {
    let bytes = [0x88u8, 0, 2, 1, 4, 3, 6, 5];
    let a = GNAddress::decode_slice(&bytes).unwrap();
    assert_eq!(a, GNAddress::decode(bytes));

    assert_eq!(
        GNAddress::decode_slice(&bytes[..7]),
        Err(DecodeError::InvalidLength)
    );
    let long = [0u8; 9];
    assert_eq!(
        GNAddress::decode_slice(&long),
        Err(DecodeError::InvalidLength)
    );
    assert_eq!(GNAddress::decode_slice(&[]), Err(DecodeError::InvalidLength));
}

#[test]
fn protocol_version_bytes() {
    assert_eq!(version(), [1, 3, 1]);
    assert_eq!(PAYLOAD_SIZE, 1300);
}
