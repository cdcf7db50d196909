use geonetrs::GNAddress;
use geonetrs::MACAddress;
use geonetrs::StationType;

#[test]
fn lib_mac_address_display() {
    let mac1 = MACAddress([0; 6]);
    assert_eq!(mac1.display(), "00:00:00:00:00:00");

    let mac2 = MACAddress([1, 2, 3, 4, 5, 6]);
    assert_eq!(mac2.display(), "01:02:03:04:05:06");
}

#[test]
fn lib_gnaddr_new() {
    let gnaddr = GNAddress::default();
    assert!(!gnaddr.is_manual());
    assert_eq!(gnaddr.get_station_type(), StationType::Unknown);
    assert_eq!(gnaddr.get_mac_address(), MACAddress([0; 6]));
}

#[test]
fn lib_gnaddr_set_manual() {
    let mut gnaddr = GNAddress::default();
    assert!(!gnaddr.is_manual());
    gnaddr.set_manual(true);
    assert!(gnaddr.is_manual());
}

#[test]
fn lib_gnaddr_set_station_type() {
    let mut gnaddr = GNAddress::default();
    assert_eq!(gnaddr.get_station_type(), StationType::Unknown);
    gnaddr.set_station_type(StationType::Motorcycle);
    assert_eq!(gnaddr.get_station_type(), StationType::Motorcycle);
}

#[test]
fn lib_gnaddr_set_mac_address() {
    let mut gnaddr = GNAddress::default();
    let mac_address = MACAddress([1, 2, 3, 4, 5, 6]);
    assert_eq!(gnaddr.get_mac_address(), MACAddress([0; 6]));
    gnaddr.set_mac_address(mac_address);
    assert_eq!(gnaddr.get_mac_address(), mac_address);
    gnaddr.set_mac_address(mac_address);
}

#[test]
fn gnaddr_codec() {
    let mut gnaddr1 = GNAddress::default();
    let mut buf = gnaddr1.encode();
    let mut gnaddr2 = GNAddress::decode(buf);
    assert_eq!(gnaddr1, gnaddr2);

    gnaddr1.set_manual(true);
    gnaddr1.set_station_type(StationType::Motorcycle);
    gnaddr1.set_mac_address(MACAddress([2, 1, 4, 3, 6, 5]));

    buf = gnaddr1.encode();
    gnaddr2 = GNAddress::decode(buf);
    assert_eq!(gnaddr1, gnaddr2);
}
