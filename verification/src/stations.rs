use vstd::prelude::*;

verus! {

/// A stop on one or both of the two lines.  The topology tables below give
/// each station its LED indices; a station missing from a line's table does
/// not lie on that line.
#[derive(Clone, Copy, Debug, Eq, Hash, PartialEq, Structural)]
pub enum Station {
    FederalWayDowntown,
    StarLake,
    KentDesMoines,
    AngleLake,
    SeaTacAirport,
    TukwilaIntlBlvd,
    RainierBeach,
    Othello,
    ColumbiaCity,
    MountBaker,
    BeaconHill,
    Sodo,
    Stadium,
    IntlDistChinatown,
    PioneerSquare,
    Symphony,
    Westlake,
    CapitolHill,
    UnivOfWashington,
    UDistrict,
    Roosevelt,
    Northgate,
    Ne130th,
    ShorelineSouth,
    ShorelineNorth,
    MountlakeTerrace,
    LynnwoodCityCenter,
    JudkinsPark,
    MercerIsland,
    SouthBellevue,
    EastMain,
    BellevueDowntown,
    Wilburton,
    SpringDistrict,
    BelRed,
    OverlakeVillage,
    RedmondTechnology,
    MarymoorVillage,
    DowntownRedmond,
}

/// The station a stop name denotes, if any.
pub open spec fn station_of_name(name: Seq<char>) -> Option<Station> {
    if name == "Federal Way Downtown"@ {
        Some(Station::FederalWayDowntown)
    } else if name == "Star Lake"@ {
        Some(Station::StarLake)
    } else if name == "Kent Des Moines"@ {
        Some(Station::KentDesMoines)
    } else if name == "Angle Lake"@ {
        Some(Station::AngleLake)
    } else if name == "SeaTac/Airport"@ {
        Some(Station::SeaTacAirport)
    } else if name == "Tukwila Int'l Blvd"@ {
        Some(Station::TukwilaIntlBlvd)
    } else if name == "Rainier Beach"@ {
        Some(Station::RainierBeach)
    } else if name == "Othello"@ {
        Some(Station::Othello)
    } else if name == "Columbia City"@ {
        Some(Station::ColumbiaCity)
    } else if name == "Mount Baker"@ {
        Some(Station::MountBaker)
    } else if name == "Beacon Hill"@ {
        Some(Station::BeaconHill)
    } else if name == "SODO"@ {
        Some(Station::Sodo)
    } else if name == "Stadium"@ {
        Some(Station::Stadium)
    } else if name == "Int'l Dist/Chinatown"@ {
        Some(Station::IntlDistChinatown)
    } else if name == "Pioneer Square"@ {
        Some(Station::PioneerSquare)
    } else if name == "Symphony"@ {
        Some(Station::Symphony)
    } else if name == "Westlake"@ {
        Some(Station::Westlake)
    } else if name == "Capitol Hill"@ {
        Some(Station::CapitolHill)
    } else if name == "Univ of Washington"@ {
        Some(Station::UnivOfWashington)
    } else if name == "U District"@ {
        Some(Station::UDistrict)
    } else if name == "Roosevelt"@ {
        Some(Station::Roosevelt)
    } else if name == "Northgate"@ {
        Some(Station::Northgate)
    } else if name == "NE 130th"@ {
        Some(Station::Ne130th)
    } else if name == "Shoreline South/148th"@ {
        Some(Station::ShorelineSouth)
    } else if name == "Shoreline North/185th"@ {
        Some(Station::ShorelineNorth)
    } else if name == "Mountlake Terrace"@ {
        Some(Station::MountlakeTerrace)
    } else if name == "Lynnwood City Center"@ {
        Some(Station::LynnwoodCityCenter)
    } else if name == "Judkins Park"@ {
        Some(Station::JudkinsPark)
    } else if name == "Mercer Island"@ {
        Some(Station::MercerIsland)
    } else if name == "South Bellevue"@ {
        Some(Station::SouthBellevue)
    } else if name == "East Main"@ {
        Some(Station::EastMain)
    } else if name == "Bellevue Downtown"@ {
        Some(Station::BellevueDowntown)
    } else if name == "Wilburton"@ {
        Some(Station::Wilburton)
    } else if name == "Spring District"@ {
        Some(Station::SpringDistrict)
    } else if name == "BelRed"@ {
        Some(Station::BelRed)
    } else if name == "Overlake Village"@ {
        Some(Station::OverlakeVillage)
    } else if name == "Redmond Technology"@ {
        Some(Station::RedmondTechnology)
    } else if name == "Marymoor Village"@ {
        Some(Station::MarymoorVillage)
    } else if name == "Downtown Redmond"@ {
        Some(Station::DowntownRedmond)
    } else {
        None
    }
}

impl Station {
    /// Looks a stop name up in the station list.
    pub fn from_name(name: &str) -> (res: Option<Station>)
        ensures
            res == station_of_name(name@),
    {
        if str_cmp(name, "Federal Way Downtown") {
            Some(Station::FederalWayDowntown)
        } else if str_cmp(name, "Star Lake") {
            Some(Station::StarLake)
        } else if str_cmp(name, "Kent Des Moines") {
            Some(Station::KentDesMoines)
        } else if str_cmp(name, "Angle Lake") {
            Some(Station::AngleLake)
        } else if str_cmp(name, "SeaTac/Airport") {
            Some(Station::SeaTacAirport)
        } else if str_cmp(name, "Tukwila Int'l Blvd") {
            Some(Station::TukwilaIntlBlvd)
        } else if str_cmp(name, "Rainier Beach") {
            Some(Station::RainierBeach)
        } else if str_cmp(name, "Othello") {
            Some(Station::Othello)
        } else if str_cmp(name, "Columbia City") {
            Some(Station::ColumbiaCity)
        } else if str_cmp(name, "Mount Baker") {
            Some(Station::MountBaker)
        } else if str_cmp(name, "Beacon Hill") {
            Some(Station::BeaconHill)
        } else if str_cmp(name, "SODO") {
            Some(Station::Sodo)
        } else if str_cmp(name, "Stadium") {
            Some(Station::Stadium)
        } else if str_cmp(name, "Int'l Dist/Chinatown") {
            Some(Station::IntlDistChinatown)
        } else if str_cmp(name, "Pioneer Square") {
            Some(Station::PioneerSquare)
        } else if str_cmp(name, "Symphony") {
            Some(Station::Symphony)
        } else if str_cmp(name, "Westlake") {
            Some(Station::Westlake)
        } else if str_cmp(name, "Capitol Hill") {
            Some(Station::CapitolHill)
        } else if str_cmp(name, "Univ of Washington") {
            Some(Station::UnivOfWashington)
        } else if str_cmp(name, "U District") {
            Some(Station::UDistrict)
        } else if str_cmp(name, "Roosevelt") {
            Some(Station::Roosevelt)
        } else if str_cmp(name, "Northgate") {
            Some(Station::Northgate)
        } else if str_cmp(name, "NE 130th") {
            Some(Station::Ne130th)
        } else if str_cmp(name, "Shoreline South/148th") {
            Some(Station::ShorelineSouth)
        } else if str_cmp(name, "Shoreline North/185th") {
            Some(Station::ShorelineNorth)
        } else if str_cmp(name, "Mountlake Terrace") {
            Some(Station::MountlakeTerrace)
        } else if str_cmp(name, "Lynnwood City Center") {
            Some(Station::LynnwoodCityCenter)
        } else if str_cmp(name, "Judkins Park") {
            Some(Station::JudkinsPark)
        } else if str_cmp(name, "Mercer Island") {
            Some(Station::MercerIsland)
        } else if str_cmp(name, "South Bellevue") {
            Some(Station::SouthBellevue)
        } else if str_cmp(name, "East Main") {
            Some(Station::EastMain)
        } else if str_cmp(name, "Bellevue Downtown") {
            Some(Station::BellevueDowntown)
        } else if str_cmp(name, "Wilburton") {
            Some(Station::Wilburton)
        } else if str_cmp(name, "Spring District") {
            Some(Station::SpringDistrict)
        } else if str_cmp(name, "BelRed") {
            Some(Station::BelRed)
        } else if str_cmp(name, "Overlake Village") {
            Some(Station::OverlakeVillage)
        } else if str_cmp(name, "Redmond Technology") {
            Some(Station::RedmondTechnology)
        } else if str_cmp(name, "Marymoor Village") {
            Some(Station::MarymoorVillage)
        } else if str_cmp(name, "Downtown Redmond") {
            Some(Station::DowntownRedmond)
        } else {
            None
        }
    }

    /// This station's position in the geographic station order.
    pub open spec fn order(self) -> int {
        match self {
            Station::FederalWayDowntown => 0,
            Station::StarLake => 1,
            Station::KentDesMoines => 2,
            Station::AngleLake => 3,
            Station::SeaTacAirport => 4,
            Station::TukwilaIntlBlvd => 5,
            Station::RainierBeach => 6,
            Station::Othello => 7,
            Station::ColumbiaCity => 8,
            Station::MountBaker => 9,
            Station::BeaconHill => 10,
            Station::Sodo => 11,
            Station::Stadium => 12,
            Station::IntlDistChinatown => 13,
            Station::PioneerSquare => 14,
            Station::Symphony => 15,
            Station::Westlake => 16,
            Station::CapitolHill => 17,
            Station::UnivOfWashington => 18,
            Station::UDistrict => 19,
            Station::Roosevelt => 20,
            Station::Northgate => 21,
            Station::Ne130th => 22,
            Station::ShorelineSouth => 23,
            Station::ShorelineNorth => 24,
            Station::MountlakeTerrace => 25,
            Station::LynnwoodCityCenter => 26,
            Station::JudkinsPark => 27,
            Station::MercerIsland => 28,
            Station::SouthBellevue => 29,
            Station::EastMain => 30,
            Station::BellevueDowntown => 31,
            Station::Wilburton => 32,
            Station::SpringDistrict => 33,
            Station::BelRed => 34,
            Station::OverlakeVillage => 35,
            Station::RedmondTechnology => 36,
            Station::MarymoorVillage => 37,
            Station::DowntownRedmond => 38,
        }
    }

    /// The order position, computed.
    pub fn order_index(self) -> (res: usize)
        ensures
            res == self.order(),
    {
        match self {
            Station::FederalWayDowntown => 0,
            Station::StarLake => 1,
            Station::KentDesMoines => 2,
            Station::AngleLake => 3,
            Station::SeaTacAirport => 4,
            Station::TukwilaIntlBlvd => 5,
            Station::RainierBeach => 6,
            Station::Othello => 7,
            Station::ColumbiaCity => 8,
            Station::MountBaker => 9,
            Station::BeaconHill => 10,
            Station::Sodo => 11,
            Station::Stadium => 12,
            Station::IntlDistChinatown => 13,
            Station::PioneerSquare => 14,
            Station::Symphony => 15,
            Station::Westlake => 16,
            Station::CapitolHill => 17,
            Station::UnivOfWashington => 18,
            Station::UDistrict => 19,
            Station::Roosevelt => 20,
            Station::Northgate => 21,
            Station::Ne130th => 22,
            Station::ShorelineSouth => 23,
            Station::ShorelineNorth => 24,
            Station::MountlakeTerrace => 25,
            Station::LynnwoodCityCenter => 26,
            Station::JudkinsPark => 27,
            Station::MercerIsland => 28,
            Station::SouthBellevue => 29,
            Station::EastMain => 30,
            Station::BellevueDowntown => 31,
            Station::Wilburton => 32,
            Station::SpringDistrict => 33,
            Station::BelRed => 34,
            Station::OverlakeVillage => 35,
            Station::RedmondTechnology => 36,
            Station::MarymoorVillage => 37,
            Station::DowntownRedmond => 38,
        }
    }
}

/// Compares a stop name with a station name from the tables.
pub(crate) fn str_cmp(a: &str, b: &str) -> (res: bool)
    ensures
        res == (a@ == b@),
{
    a.to_owned() == b.to_owned()
}

/// Line 1's plain station index, counted from the line's south end.
pub open spec fn ln1_relative_idx(s: Station) -> Option<usize> {
    match s {
        Station::FederalWayDowntown => Some(0usize),
        Station::StarLake => Some(1usize),
        Station::KentDesMoines => Some(2usize),
        Station::AngleLake => Some(3usize),
        Station::SeaTacAirport => Some(4usize),
        Station::TukwilaIntlBlvd => Some(5usize),
        Station::RainierBeach => Some(6usize),
        Station::Othello => Some(7usize),
        Station::ColumbiaCity => Some(8usize),
        Station::MountBaker => Some(9usize),
        Station::BeaconHill => Some(10usize),
        Station::Sodo => Some(11usize),
        Station::Stadium => Some(12usize),
        Station::IntlDistChinatown => Some(13usize),
        Station::PioneerSquare => Some(14usize),
        Station::Symphony => Some(15usize),
        Station::Westlake => Some(16usize),
        Station::CapitolHill => Some(17usize),
        Station::UnivOfWashington => Some(18usize),
        Station::UDistrict => Some(19usize),
        Station::Roosevelt => Some(20usize),
        Station::Northgate => Some(21usize),
        Station::Ne130th => None,
        Station::ShorelineSouth => Some(22usize),
        Station::ShorelineNorth => Some(23usize),
        Station::MountlakeTerrace => Some(24usize),
        Station::LynnwoodCityCenter => Some(25usize),
        Station::JudkinsPark => None,
        Station::MercerIsland => None,
        Station::SouthBellevue => None,
        Station::EastMain => None,
        Station::BellevueDowntown => None,
        Station::Wilburton => None,
        Station::SpringDistrict => None,
        Station::BelRed => None,
        Station::OverlakeVillage => None,
        Station::RedmondTechnology => None,
        Station::MarymoorVillage => None,
        Station::DowntownRedmond => None,
    }
}

/// Table lookup for `ln1_relative_idx`.
pub fn ln1_relative_idx_lookup(s: Station) -> (res: Option<usize>)
    ensures
        res == ln1_relative_idx(s),
{
    match s {
        Station::FederalWayDowntown => Some(0usize),
        Station::StarLake => Some(1usize),
        Station::KentDesMoines => Some(2usize),
        Station::AngleLake => Some(3usize),
        Station::SeaTacAirport => Some(4usize),
        Station::TukwilaIntlBlvd => Some(5usize),
        Station::RainierBeach => Some(6usize),
        Station::Othello => Some(7usize),
        Station::ColumbiaCity => Some(8usize),
        Station::MountBaker => Some(9usize),
        Station::BeaconHill => Some(10usize),
        Station::Sodo => Some(11usize),
        Station::Stadium => Some(12usize),
        Station::IntlDistChinatown => Some(13usize),
        Station::PioneerSquare => Some(14usize),
        Station::Symphony => Some(15usize),
        Station::Westlake => Some(16usize),
        Station::CapitolHill => Some(17usize),
        Station::UnivOfWashington => Some(18usize),
        Station::UDistrict => Some(19usize),
        Station::Roosevelt => Some(20usize),
        Station::Northgate => Some(21usize),
        Station::Ne130th => None,
        Station::ShorelineSouth => Some(22usize),
        Station::ShorelineNorth => Some(23usize),
        Station::MountlakeTerrace => Some(24usize),
        Station::LynnwoodCityCenter => Some(25usize),
        Station::JudkinsPark => None,
        Station::MercerIsland => None,
        Station::SouthBellevue => None,
        Station::EastMain => None,
        Station::BellevueDowntown => None,
        Station::Wilburton => None,
        Station::SpringDistrict => None,
        Station::BelRed => None,
        Station::OverlakeVillage => None,
        Station::RedmondTechnology => None,
        Station::MarymoorVillage => None,
        Station::DowntownRedmond => None,
    }
}

/// Line 2's plain station index, counted from the line's northwest end.
pub open spec fn ln2_relative_idx(s: Station) -> Option<usize> {
    match s {
        Station::FederalWayDowntown => None,
        Station::StarLake => None,
        Station::KentDesMoines => None,
        Station::AngleLake => None,
        Station::SeaTacAirport => None,
        Station::TukwilaIntlBlvd => None,
        Station::RainierBeach => None,
        Station::Othello => None,
        Station::ColumbiaCity => None,
        Station::MountBaker => None,
        Station::BeaconHill => None,
        Station::Sodo => None,
        Station::Stadium => None,
        Station::IntlDistChinatown => Some(12usize),
        Station::PioneerSquare => Some(11usize),
        Station::Symphony => Some(10usize),
        Station::Westlake => Some(9usize),
        Station::CapitolHill => Some(8usize),
        Station::UnivOfWashington => Some(7usize),
        Station::UDistrict => Some(6usize),
        Station::Roosevelt => Some(5usize),
        Station::Northgate => Some(4usize),
        Station::Ne130th => None,
        Station::ShorelineSouth => Some(3usize),
        Station::ShorelineNorth => Some(2usize),
        Station::MountlakeTerrace => Some(1usize),
        Station::LynnwoodCityCenter => Some(0usize),
        Station::JudkinsPark => Some(13usize),
        Station::MercerIsland => Some(14usize),
        Station::SouthBellevue => Some(15usize),
        Station::EastMain => Some(16usize),
        Station::BellevueDowntown => Some(17usize),
        Station::Wilburton => Some(18usize),
        Station::SpringDistrict => Some(19usize),
        Station::BelRed => Some(20usize),
        Station::OverlakeVillage => Some(21usize),
        Station::RedmondTechnology => Some(22usize),
        Station::MarymoorVillage => Some(23usize),
        Station::DowntownRedmond => Some(24usize),
    }
}

/// Table lookup for `ln2_relative_idx`.
pub fn ln2_relative_idx_lookup(s: Station) -> (res: Option<usize>)
    ensures
        res == ln2_relative_idx(s),
{
    match s {
        Station::FederalWayDowntown => None,
        Station::StarLake => None,
        Station::KentDesMoines => None,
        Station::AngleLake => None,
        Station::SeaTacAirport => None,
        Station::TukwilaIntlBlvd => None,
        Station::RainierBeach => None,
        Station::Othello => None,
        Station::ColumbiaCity => None,
        Station::MountBaker => None,
        Station::BeaconHill => None,
        Station::Sodo => None,
        Station::Stadium => None,
        Station::IntlDistChinatown => Some(12usize),
        Station::PioneerSquare => Some(11usize),
        Station::Symphony => Some(10usize),
        Station::Westlake => Some(9usize),
        Station::CapitolHill => Some(8usize),
        Station::UnivOfWashington => Some(7usize),
        Station::UDistrict => Some(6usize),
        Station::Roosevelt => Some(5usize),
        Station::Northgate => Some(4usize),
        Station::Ne130th => None,
        Station::ShorelineSouth => Some(3usize),
        Station::ShorelineNorth => Some(2usize),
        Station::MountlakeTerrace => Some(1usize),
        Station::LynnwoodCityCenter => Some(0usize),
        Station::JudkinsPark => Some(13usize),
        Station::MercerIsland => Some(14usize),
        Station::SouthBellevue => Some(15usize),
        Station::EastMain => Some(16usize),
        Station::BellevueDowntown => Some(17usize),
        Station::Wilburton => Some(18usize),
        Station::SpringDistrict => Some(19usize),
        Station::BelRed => Some(20usize),
        Station::OverlakeVillage => Some(21usize),
        Station::RedmondTechnology => Some(22usize),
        Station::MarymoorVillage => Some(23usize),
        Station::DowntownRedmond => Some(24usize),
    }
}

/// Line 1's map entry: ((southbound anchor, cells since previous stop), (northbound anchor, cells since previous stop)).
pub open spec fn ln1_map_idx(s: Station) -> Option<((usize, usize), (usize, usize))> {
    match s {
        Station::FederalWayDowntown => Some(((1usize, 4usize), (209usize, 1usize))),
        Station::StarLake => Some(((6usize, 3usize), (204usize, 4usize))),
        Station::KentDesMoines => Some(((10usize, 6usize), (200usize, 3usize))),
        Station::AngleLake => Some(((17usize, 5usize), (193usize, 6usize))),
        Station::SeaTacAirport => Some(((23usize, 7usize), (187usize, 5usize))),
        Station::TukwilaIntlBlvd => Some(((31usize, 4usize), (182usize, 4usize))),
        Station::RainierBeach => Some(((36usize, 2usize), (173usize, 8usize))),
        Station::Othello => Some(((39usize, 2usize), (170usize, 2usize))),
        Station::ColumbiaCity => Some(((42usize, 2usize), (167usize, 2usize))),
        Station::MountBaker => Some(((45usize, 1usize), (164usize, 2usize))),
        Station::BeaconHill => Some(((47usize, 3usize), (159usize, 4usize))),
        Station::Sodo => Some(((51usize, 1usize), (157usize, 1usize))),
        Station::Stadium => Some(((53usize, 2usize), (155usize, 1usize))),
        Station::IntlDistChinatown => Some(((56usize, 1usize), (152usize, 2usize))),
        Station::PioneerSquare => Some(((58usize, 1usize), (150usize, 1usize))),
        Station::Symphony => Some(((60usize, 1usize), (148usize, 1usize))),
        Station::Westlake => Some(((62usize, 3usize), (146usize, 1usize))),
        Station::CapitolHill => Some(((66usize, 3usize), (143usize, 2usize))),
        Station::UnivOfWashington => Some(((70usize, 2usize), (137usize, 5usize))),
        Station::UDistrict => Some(((73usize, 4usize), (133usize, 3usize))),
        Station::Roosevelt => Some(((78usize, 5usize), (129usize, 3usize))),
        Station::Northgate => Some(((84usize, 4usize), (123usize, 5usize))),
        Station::Ne130th => Some(((89usize, 1usize), (118usize, 4usize))),
        Station::ShorelineSouth => Some(((91usize, 2usize), (116usize, 1usize))),
        Station::ShorelineNorth => Some(((94usize, 4usize), (113usize, 2usize))),
        Station::MountlakeTerrace => Some(((99usize, 3usize), (110usize, 2usize))),
        Station::LynnwoodCityCenter => Some(((103usize, 1usize), (106usize, 3usize))),
        Station::JudkinsPark => None,
        Station::MercerIsland => None,
        Station::SouthBellevue => None,
        Station::EastMain => None,
        Station::BellevueDowntown => None,
        Station::Wilburton => None,
        Station::SpringDistrict => None,
        Station::BelRed => None,
        Station::OverlakeVillage => None,
        Station::RedmondTechnology => None,
        Station::MarymoorVillage => None,
        Station::DowntownRedmond => None,
    }
}

/// Table lookup for `ln1_map_idx`.
pub fn ln1_map_idx_lookup(s: Station) -> (res: Option<((usize, usize), (usize, usize))>)
    ensures
        res == ln1_map_idx(s),
{
    match s {
        Station::FederalWayDowntown => Some(((1usize, 4usize), (209usize, 1usize))),
        Station::StarLake => Some(((6usize, 3usize), (204usize, 4usize))),
        Station::KentDesMoines => Some(((10usize, 6usize), (200usize, 3usize))),
        Station::AngleLake => Some(((17usize, 5usize), (193usize, 6usize))),
        Station::SeaTacAirport => Some(((23usize, 7usize), (187usize, 5usize))),
        Station::TukwilaIntlBlvd => Some(((31usize, 4usize), (182usize, 4usize))),
        Station::RainierBeach => Some(((36usize, 2usize), (173usize, 8usize))),
        Station::Othello => Some(((39usize, 2usize), (170usize, 2usize))),
        Station::ColumbiaCity => Some(((42usize, 2usize), (167usize, 2usize))),
        Station::MountBaker => Some(((45usize, 1usize), (164usize, 2usize))),
        Station::BeaconHill => Some(((47usize, 3usize), (159usize, 4usize))),
        Station::Sodo => Some(((51usize, 1usize), (157usize, 1usize))),
        Station::Stadium => Some(((53usize, 2usize), (155usize, 1usize))),
        Station::IntlDistChinatown => Some(((56usize, 1usize), (152usize, 2usize))),
        Station::PioneerSquare => Some(((58usize, 1usize), (150usize, 1usize))),
        Station::Symphony => Some(((60usize, 1usize), (148usize, 1usize))),
        Station::Westlake => Some(((62usize, 3usize), (146usize, 1usize))),
        Station::CapitolHill => Some(((66usize, 3usize), (143usize, 2usize))),
        Station::UnivOfWashington => Some(((70usize, 2usize), (137usize, 5usize))),
        Station::UDistrict => Some(((73usize, 4usize), (133usize, 3usize))),
        Station::Roosevelt => Some(((78usize, 5usize), (129usize, 3usize))),
        Station::Northgate => Some(((84usize, 4usize), (123usize, 5usize))),
        Station::Ne130th => Some(((89usize, 1usize), (118usize, 4usize))),
        Station::ShorelineSouth => Some(((91usize, 2usize), (116usize, 1usize))),
        Station::ShorelineNorth => Some(((94usize, 4usize), (113usize, 2usize))),
        Station::MountlakeTerrace => Some(((99usize, 3usize), (110usize, 2usize))),
        Station::LynnwoodCityCenter => Some(((103usize, 1usize), (106usize, 3usize))),
        Station::JudkinsPark => None,
        Station::MercerIsland => None,
        Station::SouthBellevue => None,
        Station::EastMain => None,
        Station::BellevueDowntown => None,
        Station::Wilburton => None,
        Station::SpringDistrict => None,
        Station::BelRed => None,
        Station::OverlakeVillage => None,
        Station::RedmondTechnology => None,
        Station::MarymoorVillage => None,
        Station::DowntownRedmond => None,
    }
}

/// Line 2's map entry: ((south/eastbound anchor, cells since previous stop), (north/westbound anchor, cells since previous stop)).
pub open spec fn ln2_map_idx(s: Station) -> Option<((usize, usize), (usize, usize))> {
    match s {
        Station::FederalWayDowntown => None,
        Station::StarLake => None,
        Station::KentDesMoines => None,
        Station::AngleLake => None,
        Station::SeaTacAirport => None,
        Station::TukwilaIntlBlvd => None,
        Station::RainierBeach => None,
        Station::Othello => None,
        Station::ColumbiaCity => None,
        Station::MountBaker => None,
        Station::BeaconHill => None,
        Station::Sodo => None,
        Station::Stadium => None,
        Station::IntlDistChinatown => Some(((56usize, 1usize), (152usize, 6usize))),
        Station::PioneerSquare => Some(((58usize, 1usize), (150usize, 1usize))),
        Station::Symphony => Some(((60usize, 1usize), (148usize, 1usize))),
        Station::Westlake => Some(((62usize, 3usize), (146usize, 1usize))),
        Station::CapitolHill => Some(((66usize, 3usize), (143usize, 2usize))),
        Station::UnivOfWashington => Some(((70usize, 2usize), (137usize, 5usize))),
        Station::UDistrict => Some(((73usize, 4usize), (133usize, 3usize))),
        Station::Roosevelt => Some(((78usize, 5usize), (129usize, 3usize))),
        Station::Northgate => Some(((84usize, 4usize), (123usize, 5usize))),
        Station::Ne130th => Some(((89usize, 1usize), (118usize, 4usize))),
        Station::ShorelineSouth => Some(((91usize, 2usize), (116usize, 1usize))),
        Station::ShorelineNorth => Some(((94usize, 4usize), (113usize, 2usize))),
        Station::MountlakeTerrace => Some(((99usize, 3usize), (110usize, 2usize))),
        Station::LynnwoodCityCenter => Some(((103usize, 1usize), (106usize, 3usize))),
        Station::JudkinsPark => Some(((261usize, 6usize), (248usize, 7usize))),
        Station::MercerIsland => Some(((269usize, 7usize), (240usize, 3usize))),
        Station::SouthBellevue => Some(((276usize, 6usize), (236usize, 1usize))),
        Station::EastMain => Some(((278usize, 1usize), (234usize, 2usize))),
        Station::BellevueDowntown => Some(((280usize, 1usize), (231usize, 1usize))),
        Station::Wilburton => Some(((282usize, 1usize), (229usize, 2usize))),
        Station::SpringDistrict => Some(((285usize, 2usize), (226usize, 2usize))),
        Station::BelRed => Some(((288usize, 3usize), (223usize, 2usize))),
        Station::OverlakeVillage => Some(((291usize, 2usize), (220usize, 2usize))),
        Station::RedmondTechnology => Some(((294usize, 2usize), (217usize, 2usize))),
        Station::MarymoorVillage => Some(((298usize, 3usize), (214usize, 1usize))),
        Station::DowntownRedmond => Some(((300usize, 1usize), (212usize, 1usize))),
    }
}

/// Table lookup for `ln2_map_idx`.
pub fn ln2_map_idx_lookup(s: Station) -> (res: Option<((usize, usize), (usize, usize))>)
    ensures
        res == ln2_map_idx(s),
{
    match s {
        Station::FederalWayDowntown => None,
        Station::StarLake => None,
        Station::KentDesMoines => None,
        Station::AngleLake => None,
        Station::SeaTacAirport => None,
        Station::TukwilaIntlBlvd => None,
        Station::RainierBeach => None,
        Station::Othello => None,
        Station::ColumbiaCity => None,
        Station::MountBaker => None,
        Station::BeaconHill => None,
        Station::Sodo => None,
        Station::Stadium => None,
        Station::IntlDistChinatown => Some(((56usize, 1usize), (152usize, 6usize))),
        Station::PioneerSquare => Some(((58usize, 1usize), (150usize, 1usize))),
        Station::Symphony => Some(((60usize, 1usize), (148usize, 1usize))),
        Station::Westlake => Some(((62usize, 3usize), (146usize, 1usize))),
        Station::CapitolHill => Some(((66usize, 3usize), (143usize, 2usize))),
        Station::UnivOfWashington => Some(((70usize, 2usize), (137usize, 5usize))),
        Station::UDistrict => Some(((73usize, 4usize), (133usize, 3usize))),
        Station::Roosevelt => Some(((78usize, 5usize), (129usize, 3usize))),
        Station::Northgate => Some(((84usize, 4usize), (123usize, 5usize))),
        Station::Ne130th => Some(((89usize, 1usize), (118usize, 4usize))),
        Station::ShorelineSouth => Some(((91usize, 2usize), (116usize, 1usize))),
        Station::ShorelineNorth => Some(((94usize, 4usize), (113usize, 2usize))),
        Station::MountlakeTerrace => Some(((99usize, 3usize), (110usize, 2usize))),
        Station::LynnwoodCityCenter => Some(((103usize, 1usize), (106usize, 3usize))),
        Station::JudkinsPark => Some(((261usize, 6usize), (248usize, 7usize))),
        Station::MercerIsland => Some(((269usize, 7usize), (240usize, 3usize))),
        Station::SouthBellevue => Some(((276usize, 6usize), (236usize, 1usize))),
        Station::EastMain => Some(((278usize, 1usize), (234usize, 2usize))),
        Station::BellevueDowntown => Some(((280usize, 1usize), (231usize, 1usize))),
        Station::Wilburton => Some(((282usize, 1usize), (229usize, 2usize))),
        Station::SpringDistrict => Some(((285usize, 2usize), (226usize, 2usize))),
        Station::BelRed => Some(((288usize, 3usize), (223usize, 2usize))),
        Station::OverlakeVillage => Some(((291usize, 2usize), (220usize, 2usize))),
        Station::RedmondTechnology => Some(((294usize, 2usize), (217usize, 2usize))),
        Station::MarymoorVillage => Some(((298usize, 3usize), (214usize, 1usize))),
        Station::DowntownRedmond => Some(((300usize, 1usize), (212usize, 1usize))),
    }
}

/// Every station, in geographic order.
pub open spec fn all_stations_seq() -> Seq<Station> {
    seq![
        Station::FederalWayDowntown,
        Station::StarLake,
        Station::KentDesMoines,
        Station::AngleLake,
        Station::SeaTacAirport,
        Station::TukwilaIntlBlvd,
        Station::RainierBeach,
        Station::Othello,
        Station::ColumbiaCity,
        Station::MountBaker,
        Station::BeaconHill,
        Station::Sodo,
        Station::Stadium,
        Station::IntlDistChinatown,
        Station::PioneerSquare,
        Station::Symphony,
        Station::Westlake,
        Station::CapitolHill,
        Station::UnivOfWashington,
        Station::UDistrict,
        Station::Roosevelt,
        Station::Northgate,
        Station::Ne130th,
        Station::ShorelineSouth,
        Station::ShorelineNorth,
        Station::MountlakeTerrace,
        Station::LynnwoodCityCenter,
        Station::JudkinsPark,
        Station::MercerIsland,
        Station::SouthBellevue,
        Station::EastMain,
        Station::BellevueDowntown,
        Station::Wilburton,
        Station::SpringDistrict,
        Station::BelRed,
        Station::OverlakeVillage,
        Station::RedmondTechnology,
        Station::MarymoorVillage,
        Station::DowntownRedmond,
    ]
}

/// The station list as a vector, for walking the tables.
pub fn all_stations() -> (res: Vec<Station>)
    ensures
        res@ == all_stations_seq(),
{
    let v: Vec<Station> = vec![
        Station::FederalWayDowntown,
        Station::StarLake,
        Station::KentDesMoines,
        Station::AngleLake,
        Station::SeaTacAirport,
        Station::TukwilaIntlBlvd,
        Station::RainierBeach,
        Station::Othello,
        Station::ColumbiaCity,
        Station::MountBaker,
        Station::BeaconHill,
        Station::Sodo,
        Station::Stadium,
        Station::IntlDistChinatown,
        Station::PioneerSquare,
        Station::Symphony,
        Station::Westlake,
        Station::CapitolHill,
        Station::UnivOfWashington,
        Station::UDistrict,
        Station::Roosevelt,
        Station::Northgate,
        Station::Ne130th,
        Station::ShorelineSouth,
        Station::ShorelineNorth,
        Station::MountlakeTerrace,
        Station::LynnwoodCityCenter,
        Station::JudkinsPark,
        Station::MercerIsland,
        Station::SouthBellevue,
        Station::EastMain,
        Station::BellevueDowntown,
        Station::Wilburton,
        Station::SpringDistrict,
        Station::BelRed,
        Station::OverlakeVillage,
        Station::RedmondTechnology,
        Station::MarymoorVillage,
        Station::DowntownRedmond,
    ];
    proof {
        assert(v@ =~= all_stations_seq());
    }
    v
}

/// Every station stands in `all_stations_seq`, at its order position.
pub proof fn lemma_all_stations_complete(s: Station)
    ensures
        0 <= s.order() < all_stations_seq().len(),
        all_stations_seq()[s.order()] == s,
{
}

/// The geographic order tells the stations apart.
pub proof fn lemma_station_order_injective(a: Station, b: Station)
    requires
        a.order() == b.order(),
    ensures
        a == b,
{
}

} // verus!
