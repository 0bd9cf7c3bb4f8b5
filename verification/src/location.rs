//! Locations of the Zone (rolled on a D20) and coordination-card draws.
use vstd::prelude::*;

use crate::error::DomainError;

verus! {

/// Locations rolled on a D20; 19 and 20 mean a reroll.
#[derive(Debug, Clone, Copy, PartialEq, Eq, Structural, Hash)]
pub enum LocationId {
    Cordon,
    Garbage,
    Swamps,
    Agroprom,
    AgropromUnderground,
    DarkValley,
    LabX18,
    BarRostok,
    WildTerritory,
    Yantar,
    LabX16,
    MilitaryWarehouses,
    Radar,
    Pripyat,
    Zaton,
    Jupiter,
    EastPripyat,
    Cnpp,
}

/// The location a D20 roll names, if any.
pub open spec fn location_for_roll(roll: u8) -> Option<LocationId> {
    if roll == 1 { Some(LocationId::Cordon) }
    else if roll == 2 { Some(LocationId::Garbage) }
    else if roll == 3 { Some(LocationId::Swamps) }
    else if roll == 4 { Some(LocationId::Agroprom) }
    else if roll == 5 { Some(LocationId::AgropromUnderground) }
    else if roll == 6 { Some(LocationId::DarkValley) }
    else if roll == 7 { Some(LocationId::LabX18) }
    else if roll == 8 { Some(LocationId::BarRostok) }
    else if roll == 9 { Some(LocationId::WildTerritory) }
    else if roll == 10 { Some(LocationId::Yantar) }
    else if roll == 11 { Some(LocationId::LabX16) }
    else if roll == 12 { Some(LocationId::MilitaryWarehouses) }
    else if roll == 13 { Some(LocationId::Radar) }
    else if roll == 14 { Some(LocationId::Pripyat) }
    else if roll == 15 { Some(LocationId::Zaton) }
    else if roll == 16 { Some(LocationId::Jupiter) }
    else if roll == 17 { Some(LocationId::EastPripyat) }
    else if roll == 18 { Some(LocationId::Cnpp) }
    else { None }
}

/// The Russian name of a location.
pub open spec fn location_name(l: LocationId) -> Seq<char> {
    match l {
        LocationId::Cordon => "Кордон"@,
        LocationId::Garbage => "Свалка"@,
        LocationId::Swamps => "Болота"@,
        LocationId::Agroprom => "НИИ Агропром"@,
        LocationId::AgropromUnderground => "Подземелье Агропрома"@,
        LocationId::DarkValley => "Темная долина"@,
        LocationId::LabX18 => "Лаборатория Х-18"@,
        LocationId::BarRostok => "Бар (Завод Росток)"@,
        LocationId::WildTerritory => "Дикая территория"@,
        LocationId::Yantar => "Янтарь"@,
        LocationId::LabX16 => "Лаб. Х-16"@,
        LocationId::MilitaryWarehouses => "Военные склады"@,
        LocationId::Radar => "Радар"@,
        LocationId::Pripyat => "Припять"@,
        LocationId::Zaton => "Затон"@,
        LocationId::Jupiter => "Юпитер"@,
        LocationId::EastPripyat => "Восточная Припять"@,
        LocationId::Cnpp => "ЧАЭС"@,
    }
}

/// Each location's number in the form's D20 table, in the order the Zone lists them:
/// Cordon 1, Garbage 2, Swamps 3, up to the CNPP 18.
pub open spec fn location_number(l: LocationId) -> u8 {
    match l {
        LocationId::Cordon => 1,
        LocationId::Garbage => 2,
        LocationId::Swamps => 3,
        LocationId::Agroprom => 4,
        LocationId::AgropromUnderground => 5,
        LocationId::DarkValley => 6,
        LocationId::LabX18 => 7,
        LocationId::BarRostok => 8,
        LocationId::WildTerritory => 9,
        LocationId::Yantar => 10,
        LocationId::LabX16 => 11,
        LocationId::MilitaryWarehouses => 12,
        LocationId::Radar => 13,
        LocationId::Pripyat => 14,
        LocationId::Zaton => 15,
        LocationId::Jupiter => 16,
        LocationId::EastPripyat => 17,
        LocationId::Cnpp => 18,
    }
}

impl LocationId {
    /// Maps a D20 roll to a location: 1..=18 name one, 19 and 20 ask for a reroll,
    /// anything else is not a D20 value.
    pub fn from_d20(roll: u8) -> (r: Result<Option<LocationId>, DomainError>)
        ensures
            (roll == 0 || roll > 20) ==> r == Err::<Option<LocationId>, DomainError>(DomainError::InvalidDice(roll)),
            (1 <= roll <= 20) ==> r == Ok::<Option<LocationId>, DomainError>(location_for_roll(roll)),
    {
        if roll == 0 || roll > 20 {
            return Err(DomainError::InvalidDice(roll));
        }
        if roll == 1 {
            return Ok(Some(LocationId::Cordon));
        }
        if roll == 2 {
            return Ok(Some(LocationId::Garbage));
        }
        if roll == 3 {
            return Ok(Some(LocationId::Swamps));
        }
        if roll == 4 {
            return Ok(Some(LocationId::Agroprom));
        }
        if roll == 5 {
            return Ok(Some(LocationId::AgropromUnderground));
        }
        if roll == 6 {
            return Ok(Some(LocationId::DarkValley));
        }
        if roll == 7 {
            return Ok(Some(LocationId::LabX18));
        }
        if roll == 8 {
            return Ok(Some(LocationId::BarRostok));
        }
        if roll == 9 {
            return Ok(Some(LocationId::WildTerritory));
        }
        if roll == 10 {
            return Ok(Some(LocationId::Yantar));
        }
        if roll == 11 {
            return Ok(Some(LocationId::LabX16));
        }
        if roll == 12 {
            return Ok(Some(LocationId::MilitaryWarehouses));
        }
        if roll == 13 {
            return Ok(Some(LocationId::Radar));
        }
        if roll == 14 {
            return Ok(Some(LocationId::Pripyat));
        }
        if roll == 15 {
            return Ok(Some(LocationId::Zaton));
        }
        if roll == 16 {
            return Ok(Some(LocationId::Jupiter));
        }
        if roll == 17 {
            return Ok(Some(LocationId::EastPripyat));
        }
        if roll == 18 {
            return Ok(Some(LocationId::Cnpp));
        }
        Ok(None)
    }

    pub fn name_ru(self) -> (s: &'static str)
        ensures
            s@ == location_name(self),
    {
        match self {
            LocationId::Cordon => "Кордон",
            LocationId::Garbage => "Свалка",
            LocationId::Swamps => "Болота",
            LocationId::Agroprom => "НИИ Агропром",
            LocationId::AgropromUnderground => "Подземелье Агропрома",
            LocationId::DarkValley => "Темная долина",
            LocationId::LabX18 => "Лаборатория Х-18",
            LocationId::BarRostok => "Бар (Завод Росток)",
            LocationId::WildTerritory => "Дикая территория",
            LocationId::Yantar => "Янтарь",
            LocationId::LabX16 => "Лаб. Х-16",
            LocationId::MilitaryWarehouses => "Военные склады",
            LocationId::Radar => "Радар",
            LocationId::Pripyat => "Припять",
            LocationId::Zaton => "Затон",
            LocationId::Jupiter => "Юпитер",
            LocationId::EastPripyat => "Восточная Припять",
            LocationId::Cnpp => "ЧАЭС",
        }
    }
}

/// Coordination cards: a tens card and a units card name a sector 1..=100.
#[derive(Debug, Clone, Copy, PartialEq, Eq, Structural)]
pub struct CccDraw {
    pub tens: u8,
    pub units: u8,
    pub sector: u8,
}

/// A tens card shows 0, 10, ..., 90 and a units card 0..=9.
pub open spec fn valid_ccc_cards(tens: u8, units: u8) -> bool {
    tens <= 90 && tens % 10 == 0 && units <= 9
}

/// The sector two cards name: their sum, with 0 + 0 meaning sector 100.
pub open spec fn ccc_sector(tens: u8, units: u8) -> u8 {
    if tens == 0 && units == 0 { 100 } else { (tens + units) as u8 }
}

impl CccDraw {
    pub fn combine(tens: u8, units: u8) -> (r: Result<CccDraw, DomainError>)
        ensures
            !valid_ccc_cards(tens, units) ==> r == Err::<CccDraw, DomainError>(DomainError::InvalidCcc),
            valid_ccc_cards(tens, units) ==> r == Ok::<CccDraw, DomainError>(
                CccDraw { tens, units, sector: ccc_sector(tens, units) },
            ),
            r matches Ok(d) ==> 1 <= d.sector <= 100,
    {
        if tens > 90 || tens % 10 != 0 || units > 9 {
            return Err(DomainError::InvalidCcc);
        }
        let sector = if tens == 0 && units == 0 {
            100
        } else {
            tens.saturating_add(units)
        };
        Ok(CccDraw { tens, units, sector })
    }
}

/// A D20 roll from 1 to 18 names the location with that number in the table, and
/// every location is named by its own number; 19 and 20 name none, and any other
/// value is not a D20 roll.
pub proof fn lemma_from_d20_by_number(roll: u8, r: Result<Option<LocationId>, DomainError>, l: LocationId)
    requires
        call_ensures(LocationId::from_d20, (roll,), r),
    ensures
        1 <= roll <= 18 ==> (r matches Ok(Some(x)) && location_number(x) == roll),
        roll == location_number(l) ==> r == Ok::<Option<LocationId>, DomainError>(Some(l)),
        roll == 19 || roll == 20 ==> r == Ok::<Option<LocationId>, DomainError>(None),
        roll == 0 || roll > 20 ==> r == Err::<Option<LocationId>, DomainError>(DomainError::InvalidDice(roll)),
{
}

} // verus!
