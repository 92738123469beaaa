use weather::wind::WindDeg;

#[test]
fn wind_sectors_have_exact_borders() {
    assert_eq!(WindDeg::get(None), WindDeg::Missing);
    assert_eq!(WindDeg::get(Some(0)), WindDeg::North);
    assert_eq!(WindDeg::get(Some(11)), WindDeg::North);
    assert_eq!(WindDeg::get(Some(12)), WindDeg::NorthNorthEast);
    assert_eq!(WindDeg::get(Some(33)), WindDeg::NorthNorthEast);
    assert_eq!(WindDeg::get(Some(34)), WindDeg::NorthEast);
    assert_eq!(WindDeg::get(Some(56)), WindDeg::NorthEast);
    assert_eq!(WindDeg::get(Some(57)), WindDeg::EastNorthEast);
    assert_eq!(WindDeg::get(Some(78)), WindDeg::EastNorthEast);
    assert_eq!(WindDeg::get(Some(79)), WindDeg::East);
    assert_eq!(WindDeg::get(Some(101)), WindDeg::East);
    assert_eq!(WindDeg::get(Some(102)), WindDeg::EastSouthEast);
    assert_eq!(WindDeg::get(Some(123)), WindDeg::EastSouthEast);
    assert_eq!(WindDeg::get(Some(124)), WindDeg::SouthEast);
    assert_eq!(WindDeg::get(Some(146)), WindDeg::SouthEast);
    assert_eq!(WindDeg::get(Some(147)), WindDeg::SouthSouthEast);
    assert_eq!(WindDeg::get(Some(168)), WindDeg::SouthSouthEast);
    assert_eq!(WindDeg::get(Some(169)), WindDeg::South);
    assert_eq!(WindDeg::get(Some(191)), WindDeg::South);
    assert_eq!(WindDeg::get(Some(192)), WindDeg::SouthSouthWest);
    assert_eq!(WindDeg::get(Some(213)), WindDeg::SouthSouthWest);
    assert_eq!(WindDeg::get(Some(214)), WindDeg::SouthWest);
    assert_eq!(WindDeg::get(Some(236)), WindDeg::SouthWest);
    assert_eq!(WindDeg::get(Some(237)), WindDeg::WestSouthWest);
    assert_eq!(WindDeg::get(Some(258)), WindDeg::WestSouthWest);
    assert_eq!(WindDeg::get(Some(259)), WindDeg::West);
    assert_eq!(WindDeg::get(Some(281)), WindDeg::West);
    assert_eq!(WindDeg::get(Some(282)), WindDeg::WestNorthWest);
    assert_eq!(WindDeg::get(Some(303)), WindDeg::WestNorthWest);
    assert_eq!(WindDeg::get(Some(304)), WindDeg::NorthWest);
    assert_eq!(WindDeg::get(Some(326)), WindDeg::NorthWest);
    assert_eq!(WindDeg::get(Some(327)), WindDeg::NorthNorthWest);
    assert_eq!(WindDeg::get(Some(348)), WindDeg::NorthNorthWest);
    assert_eq!(WindDeg::get(Some(349)), WindDeg::North);
    assert_eq!(WindDeg::get(Some(360)), WindDeg::North);
    assert_eq!(WindDeg::get(Some(361)), WindDeg::Unknown);
    assert_eq!(WindDeg::get(Some(u16::MAX)), WindDeg::Unknown);
}
