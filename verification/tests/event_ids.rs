use sil::event_id::{EventId, Term};

#[test]
fn terms_by_month() {
    assert_eq!(EventId::for_date(2024, 2).term, Term::Oster);
    assert_eq!(EventId::for_date(2024, 5).term, Term::Oster);
    assert_eq!(EventId::for_date(2024, 6).term, Term::Sommer);
    assert_eq!(EventId::for_date(2024, 9).term, Term::Sommer);
    assert_eq!(EventId::for_date(2024, 10).term, Term::Winter);
    assert_eq!(EventId::for_date(2024, 12).term, Term::Winter);
    assert_eq!(EventId::for_date(2024, 1).term, Term::Winter);
}

#[test]
fn winter_spans_the_new_year() {
    // January and February still belong to the previous year's winter event.
    assert_eq!(EventId::for_date(2025, 1).year, 2024);
    assert_eq!(EventId::for_date(2025, 2).year, 2024);
    assert_eq!(EventId::for_date(2025, 3).year, 2025);
    assert_eq!(EventId::for_date(2024, 12).year, 2024);
}

#[test]
fn prefixes() {
    assert_eq!(EventId::for_date(2024, 4).prefix(), "osil");
    assert_eq!(EventId::for_date(2024, 7).prefix(), "sosil");
    assert_eq!(EventId::for_date(2024, 11).prefix(), "sil");
}
