//! The mission catalogue: missions 1..=10, each with a title, an objective and a briefing.
use vstd::prelude::*;

verus! {

#[derive(Debug, Clone, Copy, PartialEq, Eq)]
pub struct MissionDef {
    pub id: u8,
    pub title: &'static str,
    pub objective: &'static str,
    pub briefing: &'static str,
}

/// Mission ids in the catalogue.
pub open spec fn mission_exists(id: u8) -> bool {
    1 <= id <= 10
}

pub open spec fn mission_title(id: u8) -> Seq<char> {
    if id == 1 { "Пилигрим"@ }
    else if id == 2 { "Кордон"@ }
    else if id == 3 { "Хабар Агропрома"@ }
    else if id == 4 { "Тёмная долина"@ }
    else if id == 5 { "Лаборатория Х-18"@ }
    else if id == 6 { "Янтарь"@ }
    else if id == 7 { "Радар"@ }
    else if id == 8 { "Припять"@ }
    else if id == 9 { "Затон"@ }
    else if id == 10 { "ЧАЭС"@ }
    else { Seq::empty() }
}

pub open spec fn mission_objective(id: u8) -> Seq<char> {
    if id == 1 { "Дойти до Бара и найти Пилигрима"@ }
    else if id == 2 { "Пройти Кордон до Свалки"@ }
    else if id == 3 { "Вынести артефакт из НИИ Агропром"@ }
    else if id == 4 { "Разведать Тёмную долину"@ }
    else if id == 5 { "Найти документы в Лаборатории Х-18"@ }
    else if id == 6 { "Доставить груз учёным на Янтарь"@ }
    else if id == 7 { "Пройти мимо Радара"@ }
    else if id == 8 { "Добраться до Припяти"@ }
    else if id == 9 { "Найти пропавшую группу на Затоне"@ }
    else if id == 10 { "Дойти до ЧАЭС"@ }
    else { Seq::empty() }
}

pub open spec fn mission_briefing(id: u8) -> Seq<char> {
    if id == 1 { "Слухи о Пилигриме ведут через Кордон и Свалку к Бару."@ }
    else if id == 2 { "Первый выход: осмотреться на Кордоне и уйти к Свалке."@ }
    else if id == 3 { "Заказчик ждёт артефакт из окрестностей НИИ Агропром."@ }
    else if id == 4 { "Нужно разведать подходы к Тёмной долине и вернуться живым."@ }
    else if id == 5 { "В подземельях Х-18 остались документы, за которые хорошо платят."@ }
    else if id == 6 { "Учёные на Янтаре ждут приборы с Большой земли."@ }
    else if id == 7 { "Дорога на север лежит через Радар."@ }
    else if id == 8 { "Группа уходит к Припяти за редким хабаром."@ }
    else if id == 9 { "На Затоне пропала группа сталкеров; их нужно найти."@ }
    else if id == 10 { "Последний переход: к самой станции."@ }
    else { Seq::empty() }
}

impl MissionDef {
    /// The catalogue entry for `id`, if there is one.
    pub fn get(id: u8) -> (m: Option<MissionDef>)
        ensures
            m is Some <==> mission_exists(id),
            m matches Some(d) ==> {
                &&& d.id == id
                &&& d.title@ == mission_title(id)
                &&& d.objective@ == mission_objective(id)
                &&& d.briefing@ == mission_briefing(id)
            },
    {
        if id == 1 {
            return Some(MissionDef { id: 1, title: "Пилигрим", objective: "Дойти до Бара и найти Пилигрима", briefing: "Слухи о Пилигриме ведут через Кордон и Свалку к Бару." });
        }
        if id == 2 {
            return Some(MissionDef { id: 2, title: "Кордон", objective: "Пройти Кордон до Свалки", briefing: "Первый выход: осмотреться на Кордоне и уйти к Свалке." });
        }
        if id == 3 {
            return Some(MissionDef { id: 3, title: "Хабар Агропрома", objective: "Вынести артефакт из НИИ Агропром", briefing: "Заказчик ждёт артефакт из окрестностей НИИ Агропром." });
        }
        if id == 4 {
            return Some(MissionDef { id: 4, title: "Тёмная долина", objective: "Разведать Тёмную долину", briefing: "Нужно разведать подходы к Тёмной долине и вернуться живым." });
        }
        if id == 5 {
            return Some(MissionDef { id: 5, title: "Лаборатория Х-18", objective: "Найти документы в Лаборатории Х-18", briefing: "В подземельях Х-18 остались документы, за которые хорошо платят." });
        }
        if id == 6 {
            return Some(MissionDef { id: 6, title: "Янтарь", objective: "Доставить груз учёным на Янтарь", briefing: "Учёные на Янтаре ждут приборы с Большой земли." });
        }
        if id == 7 {
            return Some(MissionDef { id: 7, title: "Радар", objective: "Пройти мимо Радара", briefing: "Дорога на север лежит через Радар." });
        }
        if id == 8 {
            return Some(MissionDef { id: 8, title: "Припять", objective: "Добраться до Припяти", briefing: "Группа уходит к Припяти за редким хабаром." });
        }
        if id == 9 {
            return Some(MissionDef { id: 9, title: "Затон", objective: "Найти пропавшую группу на Затоне", briefing: "На Затоне пропала группа сталкеров; их нужно найти." });
        }
        if id == 10 {
            return Some(MissionDef { id: 10, title: "ЧАЭС", objective: "Дойти до ЧАЭС", briefing: "Последний переход: к самой станции." });
        }
        None
    }
}

} // verus!
