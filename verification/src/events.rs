//! Event tokens placed on the sector and the event-card deck.
use vstd::prelude::*;

use crate::hex::HexCoord;
use crate::shuffle::{lcg_shuffle, lemma_lcg_shuffle_perm};

verus! {

/// A marker placed on a sector hex during the exit-zone phase.
#[derive(Debug, Clone, Copy, PartialEq, Eq, Structural)]
pub struct EventToken {
    pub id: u32,
    pub hex: HexCoord,
    pub resolved: bool,
}

/// Card kinds of the event deck.
#[derive(Debug, Clone, Copy, PartialEq, Eq, Structural, Hash)]
pub enum EventCard {
    Alfa,
    Artifact,
    Anomaly,
    MutantAttack,
    Gasoline,
    AbandonedTech,
    SwampDoctor,
    Blowout,
    Helicopter,
    GopStop,
    Dirt,
    ZoneBreath,
    ZoneSpirit,
    Eclipse,
    Information,
    Trap,
    Campfire,
    FalseAlarm,
    Forester,
    Mine,
    Minefield,
    Invasion,
    Surprise,
    Squad,
    PdaMessage,
    Guide,
    Companion,
    Memory,
    Radiation,
    HiredWork,
    RadioactiveRain,
    InstrumentGlitch,
    Chance,
    Corpse,
    TahTah,
    Loot,
    HourOfHorror,
    ForeignTerritory,
    ClearSky,
    StrayBullet,
    PoisonFog,
    Pilgrim,
    Hunt,
    SmokeBreak,
    Miracle,
    Arrest,
    Sos,
    Shapeshifter,
    Warning,
    Neutral,
}

pub open spec fn event_wire(c: EventCard) -> Seq<char> {
    match c {
        EventCard::Alfa => "alfa"@,
        EventCard::Artifact => "artifact"@,
        EventCard::Anomaly => "anomaly"@,
        EventCard::MutantAttack => "mutant_attack"@,
        EventCard::Gasoline => "gasoline"@,
        EventCard::AbandonedTech => "abandoned_tech"@,
        EventCard::SwampDoctor => "swamp_doctor"@,
        EventCard::Blowout => "blowout"@,
        EventCard::Helicopter => "helicopter"@,
        EventCard::GopStop => "gop_stop"@,
        EventCard::Dirt => "dirt"@,
        EventCard::ZoneBreath => "zone_breath"@,
        EventCard::ZoneSpirit => "zone_spirit"@,
        EventCard::Eclipse => "eclipse"@,
        EventCard::Information => "information"@,
        EventCard::Trap => "trap"@,
        EventCard::Campfire => "campfire"@,
        EventCard::FalseAlarm => "false_alarm"@,
        EventCard::Forester => "forester"@,
        EventCard::Mine => "mine"@,
        EventCard::Minefield => "minefield"@,
        EventCard::Invasion => "invasion"@,
        EventCard::Surprise => "surprise"@,
        EventCard::Squad => "squad"@,
        EventCard::PdaMessage => "pda_message"@,
        EventCard::Guide => "guide"@,
        EventCard::Companion => "companion"@,
        EventCard::Memory => "memory"@,
        EventCard::Radiation => "radiation"@,
        EventCard::HiredWork => "hired_work"@,
        EventCard::RadioactiveRain => "radioactive_rain"@,
        EventCard::InstrumentGlitch => "instrument_glitch"@,
        EventCard::Chance => "chance"@,
        EventCard::Corpse => "corpse"@,
        EventCard::TahTah => "tah_tah"@,
        EventCard::Loot => "loot"@,
        EventCard::HourOfHorror => "hour_of_horror"@,
        EventCard::ForeignTerritory => "foreign_territory"@,
        EventCard::ClearSky => "clear_sky"@,
        EventCard::StrayBullet => "stray_bullet"@,
        EventCard::PoisonFog => "poison_fog"@,
        EventCard::Pilgrim => "pilgrim"@,
        EventCard::Hunt => "hunt"@,
        EventCard::SmokeBreak => "smoke_break"@,
        EventCard::Miracle => "miracle"@,
        EventCard::Arrest => "arrest"@,
        EventCard::Sos => "sos"@,
        EventCard::Shapeshifter => "shapeshifter"@,
        EventCard::Warning => "warning"@,
        EventCard::Neutral => "neutral"@,
    }
}

pub open spec fn event_title(c: EventCard) -> Seq<char> {
    match c {
        EventCard::Alfa => "Альфа"@,
        EventCard::Artifact => "Артефакт"@,
        EventCard::Anomaly => "Аномалия"@,
        EventCard::MutantAttack => "Атака мутанта"@,
        EventCard::Gasoline => "Бензин"@,
        EventCard::AbandonedTech => "Брошенная техника"@,
        EventCard::SwampDoctor => "Болотный доктор"@,
        EventCard::Blowout => "Выброс"@,
        EventCard::Helicopter => "Вертолет"@,
        EventCard::GopStop => "Гоп-стоп"@,
        EventCard::Dirt => "Грязь"@,
        EventCard::ZoneBreath => "Дыхание Зоны"@,
        EventCard::ZoneSpirit => "Дух Зоны"@,
        EventCard::Eclipse => "Затмение"@,
        EventCard::Information => "Информация"@,
        EventCard::Trap => "Капкан"@,
        EventCard::Campfire => "Костер"@,
        EventCard::FalseAlarm => "Ложная тревога"@,
        EventCard::Forester => "Лесник"@,
        EventCard::Mine => "Мина"@,
        EventCard::Minefield => "Минное поле"@,
        EventCard::Invasion => "Нашествие"@,
        EventCard::Surprise => "Неожиданность"@,
        EventCard::Squad => "Отряд"@,
        EventCard::PdaMessage => "Сообщение на ПДА"@,
        EventCard::Guide => "Проводник"@,
        EventCard::Companion => "Попутчик"@,
        EventCard::Memory => "Память"@,
        EventCard::Radiation => "Радиация"@,
        EventCard::HiredWork => "Работа по найму"@,
        EventCard::RadioactiveRain => "Радиоактивные осадки"@,
        EventCard::InstrumentGlitch => "Сбой приборов"@,
        EventCard::Chance => "Случай"@,
        EventCard::Corpse => "Труп"@,
        EventCard::TahTah => "Тах-тах"@,
        EventCard::Loot => "Хабар"@,
        EventCard::HourOfHorror => "Час ужаса"@,
        EventCard::ForeignTerritory => "Чужая территория"@,
        EventCard::ClearSky => "Чистое небо"@,
        EventCard::StrayBullet => "Шальная пуля"@,
        EventCard::PoisonFog => "Ядовитый туман"@,
        EventCard::Pilgrim => "Пилигрим"@,
        EventCard::Hunt => "Охота"@,
        EventCard::SmokeBreak => "Перекур"@,
        EventCard::Miracle => "Чудо"@,
        EventCard::Arrest => "Арест"@,
        EventCard::Sos => "SOS"@,
        EventCard::Shapeshifter => "Перевертыш"@,
        EventCard::Warning => "Предупреждение"@,
        EventCard::Neutral => "Нейтральная"@,
    }
}

/// How many copies of each card the deck holds.
pub open spec fn event_copies(c: EventCard) -> u8 {
    match c {
        EventCard::GopStop | EventCard::Information | EventCard::Mine | EventCard::Chance | EventCard::Corpse => 2,
        EventCard::Artifact | EventCard::Anomaly | EventCard::MutantAttack | EventCard::Radiation | EventCard::Loot => 3,
        EventCard::FalseAlarm | EventCard::SmokeBreak | EventCard::Neutral => 4,
        _ => 1,
    }
}

/// Every card kind, in catalogue order.
pub open spec fn all_event_cards() -> Seq<EventCard> {
    seq![
        EventCard::Alfa,
        EventCard::Artifact,
        EventCard::Anomaly,
        EventCard::MutantAttack,
        EventCard::Gasoline,
        EventCard::AbandonedTech,
        EventCard::SwampDoctor,
        EventCard::Blowout,
        EventCard::Helicopter,
        EventCard::GopStop,
        EventCard::Dirt,
        EventCard::ZoneBreath,
        EventCard::ZoneSpirit,
        EventCard::Eclipse,
        EventCard::Information,
        EventCard::Trap,
        EventCard::Campfire,
        EventCard::FalseAlarm,
        EventCard::Forester,
        EventCard::Mine,
        EventCard::Minefield,
        EventCard::Invasion,
        EventCard::Surprise,
        EventCard::Squad,
        EventCard::PdaMessage,
        EventCard::Guide,
        EventCard::Companion,
        EventCard::Memory,
        EventCard::Radiation,
        EventCard::HiredWork,
        EventCard::RadioactiveRain,
        EventCard::InstrumentGlitch,
        EventCard::Chance,
        EventCard::Corpse,
        EventCard::TahTah,
        EventCard::Loot,
        EventCard::HourOfHorror,
        EventCard::ForeignTerritory,
        EventCard::ClearSky,
        EventCard::StrayBullet,
        EventCard::PoisonFog,
        EventCard::Pilgrim,
        EventCard::Hunt,
        EventCard::SmokeBreak,
        EventCard::Miracle,
        EventCard::Arrest,
        EventCard::Sos,
        EventCard::Shapeshifter,
        EventCard::Warning,
        EventCard::Neutral,
    ]
}

/// Each card of `cards`, repeated as many times as the deck holds it, in order.
pub open spec fn expand_cards(cards: Seq<EventCard>) -> Seq<EventCard>
    decreases cards.len(),
{
    if cards.len() == 0 {
        Seq::empty()
    } else {
        let c = cards.last();
        expand_cards(cards.drop_last()) + Seq::new(event_copies(c) as nat, |_i: int| c)
    }
}

/// The unshuffled deck.
pub open spec fn unshuffled_deck() -> Seq<EventCard> {
    expand_cards(all_event_cards())
}

/// The LCG state the deck shuffle starts from.
pub open spec fn deck_shuffle_state(seed: u64) -> u64 {
    vstd::wrapping::u64_specs::wrapping_mul(seed, 0x9E37_79B9_7F4A_7C15) ^ 0xA24B_AED4_96E9_1D5F
}

impl EventCard {
    pub fn wire_id(self) -> (s: &'static str)
        ensures
            s@ == event_wire(self),
    {
        match self {
            EventCard::Alfa => "alfa",
            EventCard::Artifact => "artifact",
            EventCard::Anomaly => "anomaly",
            EventCard::MutantAttack => "mutant_attack",
            EventCard::Gasoline => "gasoline",
            EventCard::AbandonedTech => "abandoned_tech",
            EventCard::SwampDoctor => "swamp_doctor",
            EventCard::Blowout => "blowout",
            EventCard::Helicopter => "helicopter",
            EventCard::GopStop => "gop_stop",
            EventCard::Dirt => "dirt",
            EventCard::ZoneBreath => "zone_breath",
            EventCard::ZoneSpirit => "zone_spirit",
            EventCard::Eclipse => "eclipse",
            EventCard::Information => "information",
            EventCard::Trap => "trap",
            EventCard::Campfire => "campfire",
            EventCard::FalseAlarm => "false_alarm",
            EventCard::Forester => "forester",
            EventCard::Mine => "mine",
            EventCard::Minefield => "minefield",
            EventCard::Invasion => "invasion",
            EventCard::Surprise => "surprise",
            EventCard::Squad => "squad",
            EventCard::PdaMessage => "pda_message",
            EventCard::Guide => "guide",
            EventCard::Companion => "companion",
            EventCard::Memory => "memory",
            EventCard::Radiation => "radiation",
            EventCard::HiredWork => "hired_work",
            EventCard::RadioactiveRain => "radioactive_rain",
            EventCard::InstrumentGlitch => "instrument_glitch",
            EventCard::Chance => "chance",
            EventCard::Corpse => "corpse",
            EventCard::TahTah => "tah_tah",
            EventCard::Loot => "loot",
            EventCard::HourOfHorror => "hour_of_horror",
            EventCard::ForeignTerritory => "foreign_territory",
            EventCard::ClearSky => "clear_sky",
            EventCard::StrayBullet => "stray_bullet",
            EventCard::PoisonFog => "poison_fog",
            EventCard::Pilgrim => "pilgrim",
            EventCard::Hunt => "hunt",
            EventCard::SmokeBreak => "smoke_break",
            EventCard::Miracle => "miracle",
            EventCard::Arrest => "arrest",
            EventCard::Sos => "sos",
            EventCard::Shapeshifter => "shapeshifter",
            EventCard::Warning => "warning",
            EventCard::Neutral => "neutral",
        }
    }

    pub fn title_ru(self) -> (s: &'static str)
        ensures
            s@ == event_title(self),
    {
        match self {
            EventCard::Alfa => "Альфа",
            EventCard::Artifact => "Артефакт",
            EventCard::Anomaly => "Аномалия",
            EventCard::MutantAttack => "Атака мутанта",
            EventCard::Gasoline => "Бензин",
            EventCard::AbandonedTech => "Брошенная техника",
            EventCard::SwampDoctor => "Болотный доктор",
            EventCard::Blowout => "Выброс",
            EventCard::Helicopter => "Вертолет",
            EventCard::GopStop => "Гоп-стоп",
            EventCard::Dirt => "Грязь",
            EventCard::ZoneBreath => "Дыхание Зоны",
            EventCard::ZoneSpirit => "Дух Зоны",
            EventCard::Eclipse => "Затмение",
            EventCard::Information => "Информация",
            EventCard::Trap => "Капкан",
            EventCard::Campfire => "Костер",
            EventCard::FalseAlarm => "Ложная тревога",
            EventCard::Forester => "Лесник",
            EventCard::Mine => "Мина",
            EventCard::Minefield => "Минное поле",
            EventCard::Invasion => "Нашествие",
            EventCard::Surprise => "Неожиданность",
            EventCard::Squad => "Отряд",
            EventCard::PdaMessage => "Сообщение на ПДА",
            EventCard::Guide => "Проводник",
            EventCard::Companion => "Попутчик",
            EventCard::Memory => "Память",
            EventCard::Radiation => "Радиация",
            EventCard::HiredWork => "Работа по найму",
            EventCard::RadioactiveRain => "Радиоактивные осадки",
            EventCard::InstrumentGlitch => "Сбой приборов",
            EventCard::Chance => "Случай",
            EventCard::Corpse => "Труп",
            EventCard::TahTah => "Тах-тах",
            EventCard::Loot => "Хабар",
            EventCard::HourOfHorror => "Час ужаса",
            EventCard::ForeignTerritory => "Чужая территория",
            EventCard::ClearSky => "Чистое небо",
            EventCard::StrayBullet => "Шальная пуля",
            EventCard::PoisonFog => "Ядовитый туман",
            EventCard::Pilgrim => "Пилигрим",
            EventCard::Hunt => "Охота",
            EventCard::SmokeBreak => "Перекур",
            EventCard::Miracle => "Чудо",
            EventCard::Arrest => "Арест",
            EventCard::Sos => "SOS",
            EventCard::Shapeshifter => "Перевертыш",
            EventCard::Warning => "Предупреждение",
            EventCard::Neutral => "Нейтральная",
        }
    }

    /// Multiplicity in the deck: unique cards stay rare.
    pub fn copies_in_deck(self) -> (n: u8)
        ensures
            n == event_copies(self),
    {
        match self {
            EventCard::GopStop | EventCard::Information | EventCard::Mine | EventCard::Chance | EventCard::Corpse => 2,
            EventCard::Artifact | EventCard::Anomaly | EventCard::MutantAttack | EventCard::Radiation | EventCard::Loot => 3,
            EventCard::FalseAlarm | EventCard::SmokeBreak | EventCard::Neutral => 4,
            _ => 1,
        }
    }
}

/// Every card kind, in catalogue order.
pub fn all_event_card_vec() -> (v: Vec<EventCard>)
    ensures
        v@ == all_event_cards(),
{
    let v = vec![
        EventCard::Alfa,
        EventCard::Artifact,
        EventCard::Anomaly,
        EventCard::MutantAttack,
        EventCard::Gasoline,
        EventCard::AbandonedTech,
        EventCard::SwampDoctor,
        EventCard::Blowout,
        EventCard::Helicopter,
        EventCard::GopStop,
        EventCard::Dirt,
        EventCard::ZoneBreath,
        EventCard::ZoneSpirit,
        EventCard::Eclipse,
        EventCard::Information,
        EventCard::Trap,
        EventCard::Campfire,
        EventCard::FalseAlarm,
        EventCard::Forester,
        EventCard::Mine,
        EventCard::Minefield,
        EventCard::Invasion,
        EventCard::Surprise,
        EventCard::Squad,
        EventCard::PdaMessage,
        EventCard::Guide,
        EventCard::Companion,
        EventCard::Memory,
        EventCard::Radiation,
        EventCard::HiredWork,
        EventCard::RadioactiveRain,
        EventCard::InstrumentGlitch,
        EventCard::Chance,
        EventCard::Corpse,
        EventCard::TahTah,
        EventCard::Loot,
        EventCard::HourOfHorror,
        EventCard::ForeignTerritory,
        EventCard::ClearSky,
        EventCard::StrayBullet,
        EventCard::PoisonFog,
        EventCard::Pilgrim,
        EventCard::Hunt,
        EventCard::SmokeBreak,
        EventCard::Miracle,
        EventCard::Arrest,
        EventCard::Sos,
        EventCard::Shapeshifter,
        EventCard::Warning,
        EventCard::Neutral,
    ];
    assert(v@ =~= all_event_cards());
    v
}

#[derive(Debug, Clone, PartialEq, Eq)]
pub struct EventDeck {
    pub draw: Vec<EventCard>,
    pub discard: Vec<EventCard>,
}

/// The draw pile a draw takes from: when it is empty, the discard comes back reversed.
pub open spec fn draw_source(draw: Seq<EventCard>, discard: Seq<EventCard>) -> (Seq<EventCard>, Seq<EventCard>) {
    if draw.len() == 0 { (discard.reverse(), Seq::empty()) } else { (draw, discard) }
}

/// The card a draw returns: the top of the pile, or a neutral card when both piles are empty.
pub open spec fn event_drawn(draw: Seq<EventCard>, discard: Seq<EventCard>) -> EventCard {
    let (d, _x) = draw_source(draw, discard);
    if d.len() > 0 { d.last() } else { EventCard::Neutral }
}

impl EventDeck {
    /// A deck holding every card with its multiplicity, shuffled from the seed.
    pub fn shuffled(seed: u64) -> (d: EventDeck)
        ensures
            d.draw@ == lcg_shuffle(unshuffled_deck(), deck_shuffle_state(seed)),
            d.discard@.len() == 0,
    {
        let cards = all_event_card_vec();
        let mut draw: Vec<EventCard> = Vec::new();
        let mut i: usize = 0;
        while i < cards.len()
            invariant
                i <= cards@.len(),
                cards@ == all_event_cards(),
                draw@ == expand_cards(cards@.take(i as int)),
            decreases cards@.len() - i,
        {
            let card = cards[i];
            let n = card.copies_in_deck();
            let mut k: u8 = 0;
            let ghost before = draw@;
            while k < n
                invariant
                    k <= n,
                    n == event_copies(card),
                    draw@ == before + Seq::new(k as nat, |_j: int| card),
                decreases n - k,
            {
                draw.push(card);
                k = k + 1;
                assert(draw@ =~= before + Seq::new(k as nat, |_j: int| card));
            }
            assert(cards@.take(i as int + 1).drop_last() =~= cards@.take(i as int));
            i = i + 1;
        }
        assert(cards@.take(cards@.len() as int) =~= cards@);
        let mut state = seed.wrapping_mul(0x9E37_79B9_7F4A_7C15) ^ 0xA24B_AED4_96E9_1D5F;
        let n = draw.len();
        if n > 1 {
            let mut i: usize = n - 1;
            while i >= 1
                invariant
                    draw@.len() == n,
                    n >= 2,
                    i < n,
                    lcg_shuffle(unshuffled_deck(), deck_shuffle_state(seed))
                        == crate::shuffle::lcg_shuffle_from(draw@, state, i as nat),
                decreases i,
            {
                state = state.wrapping_mul(6364136223846793005).wrapping_add(1);
                let j = ((state >> 33) as usize) % (i + 1);
                let a = draw[i];
                let b = draw[j];
                draw.set(i, b);
                draw.set(j, a);
                i = i - 1;
            }
        }
        EventDeck { draw, discard: Vec::new() }
    }

    /// Draws the top card into the discard. An empty draw pile first takes the discard
    /// back in reverse order; with both piles empty the draw yields a neutral card.
    pub fn draw_one(&mut self) -> (card: EventCard)
        ensures
            card == event_drawn(old(self).draw@, old(self).discard@),
            ({
                let (d, x) = draw_source(old(self).draw@, old(self).discard@);
                &&& final(self).draw@ == (if d.len() > 0 { d.drop_last() } else { d })
                &&& final(self).discard@ == x.push(card)
            }),
    {
        if self.draw.len() == 0 {
            let mut reversed: Vec<EventCard> = Vec::new();
            let mut i: usize = self.discard.len();
            while i > 0
                invariant
                    i <= self.discard@.len(),
                    self.discard@ == old(self).discard@,
                    reversed@ == old(self).discard@.subrange(i as int, old(self).discard@.len() as int).reverse(),
                decreases i,
            {
                i = i - 1;
                reversed.push(self.discard[i]);
                assert(reversed@ =~= old(self).discard@.subrange(i as int, old(self).discard@.len() as int).reverse());
            }
            assert(old(self).discard@.subrange(0, old(self).discard@.len() as int) =~= old(self).discard@);
            self.draw = reversed;
            self.discard = Vec::new();
        }
        let card = match self.draw.pop() {
            Some(c) => c,
            None => EventCard::Neutral,
        };
        self.discard.push(card);
        card
    }
}

impl Default for EventDeck {
    fn default() -> (d: EventDeck)
        ensures
            d.draw@.len() == 0,
            d.discard@.len() == 0,
    {
        EventDeck { draw: Vec::new(), discard: Vec::new() }
    }
}

proof fn lemma_expand_len(cards: Seq<EventCard>)
    ensures
        expand_cards(cards).len() <= 4 * cards.len(),
    decreases cards.len(),
{
    if cards.len() > 0 {
        lemma_expand_len(cards.drop_last());
    }
}

/// However it is shuffled, the event deck holds exactly the cards of the unshuffled
/// deck (each card as many times as its copy count).
pub proof fn lemma_shuffled_deck_is_permutation(seed: u64)
    ensures
        lcg_shuffle(unshuffled_deck(), deck_shuffle_state(seed)).to_multiset() == unshuffled_deck().to_multiset(),
        lcg_shuffle(unshuffled_deck(), deck_shuffle_state(seed)).len() == unshuffled_deck().len(),
{
    lemma_expand_len(all_event_cards());
    lemma_lcg_shuffle_perm(unshuffled_deck(), deck_shuffle_state(seed));
}

/// A draw loses no card: the drawn card goes to the discard, and the two piles together
/// hold what they held before (a non-empty deck; an empty one yields a neutral card).
pub proof fn lemma_draw_keeps_cards(
    draw: Seq<EventCard>,
    discard: Seq<EventCard>,
    new_draw: Seq<EventCard>,
    new_discard: Seq<EventCard>,
)
    requires
        draw.len() + discard.len() > 0,
        ({
            let (d, x) = draw_source(draw, discard);
            &&& new_draw == (if d.len() > 0 { d.drop_last() } else { d })
            &&& new_discard == x.push(event_drawn(draw, discard))
        }),
    ensures
        (new_draw + new_discard).to_multiset() == (draw + discard).to_multiset(),
        new_discard.last() == event_drawn(draw, discard),
{
    broadcast use vstd::seq_lib::group_to_multiset_ensures;
    let (d, x) = draw_source(draw, discard);
    let card = d.last();
    assert(d.len() > 0) by {
        if draw.len() == 0 {
            assert(d.len() == discard.len());
        }
    }
    vstd::seq_lib::lemma_multiset_commutative(d.drop_last(), x.push(card));
    vstd::seq_lib::lemma_multiset_commutative(d.drop_last(), x);
    vstd::seq_lib::lemma_multiset_commutative(d, x);
    assert(d =~= d.drop_last().push(card));
    assert(d.drop_last().push(card).to_multiset() =~= d.drop_last().to_multiset().insert(card));
    assert(x.push(card).to_multiset() =~= x.to_multiset().insert(card));
    assert((new_draw + new_discard).to_multiset() =~= (d + x).to_multiset());
    if draw.len() == 0 {
        discard.lemma_reverse_to_multiset();
        assert(x =~= Seq::<EventCard>::empty());
        assert(d + x =~= discard.reverse());
        assert(draw + discard =~= discard);
    } else {
        assert(d == draw && x == discard);
    }
}

/// How many times a card occurs among the first `k` of a sequence.
spec fn front_count(s: Seq<EventCard>, c: EventCard, k: nat) -> nat
    decreases k,
{
    if k == 0 {
        0
    } else {
        front_count(s, c, (k - 1) as nat) + (if s[k - 1] == c { 1nat } else { 0nat })
    }
}

proof fn lemma_front_count(s: Seq<EventCard>, c: EventCard, k: nat)
    requires
        k <= s.len(),
    ensures
        s.take(k as int).to_multiset().count(c) == front_count(s, c, k),
    decreases k,
{
    broadcast use vstd::seq_lib::group_to_multiset_ensures;
    if k == 0 {
        assert(s.take(0) =~= Seq::<EventCard>::empty());
    } else {
        lemma_front_count(s, c, (k - 1) as nat);
        assert(s.take(k as int) =~= s.take(k - 1).push(s[k - 1]));
    }
}

proof fn lemma_repeat_count(n: nat, d: EventCard, c: EventCard)
    ensures
        Seq::new(n, |_i: int| d).to_multiset().count(c) == (if d == c { n } else { 0 }),
    decreases n,
{
    broadcast use vstd::seq_lib::group_to_multiset_ensures;
    if n > 0 {
        lemma_repeat_count((n - 1) as nat, d, c);
        assert(Seq::new(n, |_i: int| d) =~= Seq::new((n - 1) as nat, |_i: int| d).push(d));
    } else {
        assert(Seq::new(n, |_i: int| d) =~= Seq::<EventCard>::empty());
    }
}

/// Expanding repeats each card its copy count of times.
proof fn lemma_expand_count(cards: Seq<EventCard>, c: EventCard)
    ensures
        expand_cards(cards).to_multiset().count(c) == cards.to_multiset().count(c) * event_copies(c),
    decreases cards.len(),
{
    broadcast use vstd::seq_lib::group_to_multiset_ensures;
    if cards.len() == 0 {
        assert(expand_cards(cards) =~= Seq::<EventCard>::empty());
        assert(cards =~= Seq::<EventCard>::empty());
    } else {
        let last = cards.last();
        let rest = cards.drop_last();
        lemma_expand_count(rest, c);
        lemma_repeat_count(event_copies(last) as nat, last, c);
        let rep = Seq::new(event_copies(last) as nat, |_i: int| last);
        vstd::seq_lib::lemma_multiset_commutative(expand_cards(rest), rep);
        assert(expand_cards(cards) == expand_cards(rest) + rep);
        assert(expand_cards(cards).to_multiset().count(c) == expand_cards(rest).to_multiset().count(c) + rep.to_multiset().count(c));
        assert(cards =~= rest.push(last));
        assert(cards.to_multiset().count(c) == rest.to_multiset().count(c) + (if last == c { 1int } else { 0int }));
        assert(rest.to_multiset().count(c) * event_copies(c) + (if last == c { event_copies(c) as int } else { 0int })
            == cards.to_multiset().count(c) * event_copies(c)) by (nonlinear_arith)
            requires
                cards.to_multiset().count(c) == rest.to_multiset().count(c) + (if last == c { 1int } else { 0int });
    }
}

/// The catalogue names each card once.
#[verifier::rlimit(60)]
proof fn lemma_catalogue_once(c: EventCard)
    ensures
        all_event_cards().to_multiset().count(c) == 1,
{
    let cards = all_event_cards();
    lemma_front_count(cards, c, 50);
    assert(cards.take(50) =~= cards);
    reveal_with_fuel(front_count, 51);
    match c {
        EventCard::Alfa => {
            assert(front_count(cards, c, 1) == 1);
        },
        EventCard::Artifact => {},
        EventCard::Anomaly => {},
        EventCard::MutantAttack => {},
        EventCard::Gasoline => {},
        EventCard::AbandonedTech => {},
        EventCard::SwampDoctor => {},
        EventCard::Blowout => {},
        EventCard::Helicopter => {},
        EventCard::GopStop => {},
        EventCard::Dirt => {},
        EventCard::ZoneBreath => {},
        EventCard::ZoneSpirit => {},
        EventCard::Eclipse => {},
        EventCard::Information => {},
        EventCard::Trap => {},
        EventCard::Campfire => {},
        EventCard::FalseAlarm => {},
        EventCard::Forester => {},
        EventCard::Mine => {},
        EventCard::Minefield => {},
        EventCard::Invasion => {},
        EventCard::Surprise => {},
        EventCard::Squad => {},
        EventCard::PdaMessage => {},
        EventCard::Guide => {},
        EventCard::Companion => {},
        EventCard::Memory => {},
        EventCard::Radiation => {},
        EventCard::HiredWork => {},
        EventCard::RadioactiveRain => {},
        EventCard::InstrumentGlitch => {},
        EventCard::Chance => {},
        EventCard::Corpse => {},
        EventCard::TahTah => {},
        EventCard::Loot => {},
        EventCard::HourOfHorror => {},
        EventCard::ForeignTerritory => {},
        EventCard::ClearSky => {},
        EventCard::StrayBullet => {},
        EventCard::PoisonFog => {},
        EventCard::Pilgrim => {},
        EventCard::Hunt => {},
        EventCard::SmokeBreak => {},
        EventCard::Miracle => {},
        EventCard::Arrest => {},
        EventCard::Sos => {},
        EventCard::Shapeshifter => {},
        EventCard::Warning => {},
        EventCard::Neutral => {},
    }
}

/// However it is shuffled, the event deck holds the unique cards (Blowout, Pilgrim,
/// Swamp Doctor, Clear Sky, Miracle) once each, and Artifact, Mutant Attack, Anomaly,
/// Loot and Radiation three times each.
pub proof fn lemma_event_deck_copies(seed: u64, d: EventDeck)
    requires
        call_ensures(EventDeck::shuffled, (seed,), d),
    ensures
        d.draw@.to_multiset().count(EventCard::Blowout) == 1,
        d.draw@.to_multiset().count(EventCard::Pilgrim) == 1,
        d.draw@.to_multiset().count(EventCard::SwampDoctor) == 1,
        d.draw@.to_multiset().count(EventCard::ClearSky) == 1,
        d.draw@.to_multiset().count(EventCard::Miracle) == 1,
        d.draw@.to_multiset().count(EventCard::Artifact) == 3,
        d.draw@.to_multiset().count(EventCard::MutantAttack) == 3,
        d.draw@.to_multiset().count(EventCard::Anomaly) == 3,
        d.draw@.to_multiset().count(EventCard::Loot) == 3,
        d.draw@.to_multiset().count(EventCard::Radiation) == 3,
        d.draw@.to_multiset().count(EventCard::GopStop) == 2,
        d.draw@.to_multiset().count(EventCard::Information) == 2,
        d.draw@.to_multiset().count(EventCard::Corpse) == 2,
        d.draw@.to_multiset().count(EventCard::Mine) == 2,
        d.draw@.to_multiset().count(EventCard::Chance) == 2,
        d.draw@.to_multiset().count(EventCard::Neutral) == 4,
        d.draw@.to_multiset().count(EventCard::FalseAlarm) == 4,
        d.draw@.to_multiset().count(EventCard::SmokeBreak) == 4,
        forall|c: EventCard|
            !(c == EventCard::Artifact || c == EventCard::MutantAttack || c == EventCard::Anomaly || c == EventCard::Loot
                || c == EventCard::Radiation || c == EventCard::GopStop || c == EventCard::Information
                || c == EventCard::Corpse || c == EventCard::Mine || c == EventCard::Chance || c == EventCard::Neutral
                || c == EventCard::FalseAlarm || c == EventCard::SmokeBreak) ==> #[trigger] d.draw@.to_multiset().count(c) == 1,
{
    broadcast use vstd::seq_lib::group_to_multiset_ensures;
    lemma_shuffled_deck_is_permutation(seed);
    let cards = all_event_cards();
    assert forall|c: EventCard| #[trigger] d.draw@.to_multiset().count(c) == all_event_cards().to_multiset().count(c) * event_copies(c) by {
        lemma_expand_count(cards, c);
    }
    assert forall|c: EventCard| #[trigger] all_event_cards().to_multiset().count(c) == 1 by {
        lemma_catalogue_once(c);
    }
}

} // verus!
