use std::fmt;

use tracetag::render::{write_event, write_flag, write_tagged, write_traced};
use tracetag::{Event, Tag, Tagged, Tr, Traced};

#[test]
fn flag_is_written_in_words() {
    assert_eq!(write_flag(true), "true");
    assert_eq!(write_flag(false), "false");
}

#[test]
fn event_line_wraps_the_identifier() {
    assert_eq!(write_event("0x1f"), "Event(0x1f)");
    assert_eq!(write_event(""), "Event()");
}

#[test]
fn traced_line_has_the_fixed_layout() {
    assert_eq!(
        write_traced("5", true, "Event(a)", "Event(b)"),
        "Tr(5, <suspended: true>, <on_cloning: Event(a)>, <on_cloned: Event(b)>)"
    );
    assert_eq!(
        write_traced("\"x\"", false, "", ""),
        "Tr(\"x\", <suspended: false>, <on_cloning: >, <on_cloned: >)"
    );
}

#[test]
fn tagged_line_has_the_fixed_layout() {
    assert_eq!(write_tagged("42", "\"label\""), "Tag(42, \"label\")");
}

#[test]
fn tagged_value_is_described_with_both_fields() {
    let tagged = 42.tagged("label");

    assert_eq!(tagged.describe().as_deref(), Some("Tag(42, \"label\")"));
    assert_eq!(
        Tag::describe(&vec![1u8, 2].tagged('c')).as_deref(),
        Some("Tag([1, 2], 'c')")
    );
}

#[test]
fn fresh_wrapper_is_described_with_fixed_hooks() {
    let mut wrapper = 5.traced();
    assert_eq!(
        wrapper.describe().as_deref(),
        Some("Tr(5, <suspended: true>, <on_cloning: Event(fixed)>, <on_cloned: Event(fixed)>)")
    );

    Tr::resume(&mut wrapper);
    assert_eq!(
        wrapper.describe().as_deref(),
        Some("Tr(5, <suspended: false>, <on_cloning: Event(fixed)>, <on_cloned: Event(fixed)>)")
    );
}

#[test]
fn closure_is_described_by_an_address_and_nothing_it_holds() {
    let secret = String::from("secret");
    let event: Event<i32, bool> = Event::new(move |_| secret.is_empty());

    let text = event.describe();

    assert!(text.starts_with("Event(0x"));
    assert!(text.ends_with(')'));
    assert!(!text.contains("secret"));
}

#[test]
fn copies_of_an_event_are_described_alike() {
    let first: Event<i32, ()> = Event::new(|_| {});
    let second: Event<i32, ()> = Event::new(|_| {});
    let copy = first.clone();

    assert_eq!(first.describe(), copy.describe());
    assert_ne!(first.describe(), second.describe());
}

#[test]
fn duplicate_is_described_with_the_hooks_of_its_source() {
    let mut source = Tr::with_closure(String::from("p"), |_| false, |_| {});
    Tr::suspend(&mut source);

    let duplicate = source.clone();

    let of_source = source.describe().expect("a string can be written");
    let of_duplicate = duplicate.describe().expect("a string can be written");
    assert!(of_source.starts_with("Tr(\"p\", <suspended: true>, <on_cloning: Event(0x"));
    assert!(of_duplicate.starts_with("Tr(\"p\", <suspended: false>, <on_cloning: Event(0x"));
    assert_eq!(
        of_source.replace("<suspended: true>", "<suspended: false>"),
        of_duplicate
    );
}

#[test]
fn wrapper_with_a_notice_shows_one_fixed_hook_and_one_closure() {
    let wrapper = Tr::with_notice(5, |_| {});

    let text = wrapper.describe().expect("a number can be written");

    assert!(text.starts_with(
        "Tr(5, <suspended: true>, <on_cloning: Event(fixed)>, <on_cloned: Event(0x"
    ));
    assert!(text.ends_with(")>)"));
}

struct Unwritable;

impl fmt::Debug for Unwritable {
    fn fmt(&self, _: &mut fmt::Formatter<'_>) -> fmt::Result {
        Err(fmt::Error)
    }
}

#[test]
fn payload_that_cannot_be_written_gives_no_line() {
    assert_eq!(Tr::new(Unwritable).describe(), None);
    assert_eq!(Unwritable.tagged(1).describe(), None);
    assert_eq!(1.tagged(Unwritable).describe(), None);
}

#[test]
fn describing_asks_no_hook_and_says_the_same_twice() {
    let wrapper = Tr::with_closure(
        2,
        |_| unreachable!("describing asks no hook"),
        |_| unreachable!("describing tells no hook"),
    );

    let first = wrapper.describe();
    let second = wrapper.describe();

    assert!(first.is_some());
    assert_eq!(first, second);
}
