use bevy::asset::HandleId;
use text_mesh_sync::object::{FontEvent, TextObject};

fn font_a() -> HandleId {
    HandleId::from("fonts/a.ttf#mesh")
}

fn font_b() -> HandleId {
    HandleId::from("fonts/b.ttf#mesh")
}

#[test]
fn new_object_counts_as_changed() {
    let object = TextObject::new(font_a());
    assert_eq!(object.font(), font_a());
    assert!(object.text_changed());
    assert!(object.state_changed());
    assert!(object.needs_sync());
    assert_eq!(object.state().font_loaded(), None);
    assert_eq!(object.state().warning_trigger_count(), 0);
    assert!(!object.state().warning_shown());
}

#[test]
fn take_changes_clears_both_flags() {
    let mut object = TextObject::new(font_a());
    assert!(object.take_changes());
    assert!(!object.text_changed());
    assert!(!object.state_changed());
    assert!(!object.needs_sync());
    assert!(!object.take_changes());
    assert!(!object.needs_sync());
}

#[test]
fn edit_marks_the_text_and_takes_the_font() {
    let mut object = TextObject::new(font_a());
    object.take_changes();
    object.edit(font_b());
    assert_eq!(object.font(), font_b());
    assert!(object.text_changed());
    assert!(!object.state_changed());
    assert!(object.needs_sync());
}

#[test]
fn created_event_for_own_font_sets_loaded() {
    let mut object = TextObject::new(font_a());
    object.take_changes();
    object.font_event(&FontEvent::Created { font: font_a() });
    assert_eq!(object.state().font_loaded(), Some(true));
    assert!(object.state_changed());
    assert!(!object.text_changed());
    assert!(object.needs_sync());
}

#[test]
fn removed_event_for_own_font_sets_unloaded() {
    let mut object = TextObject::new(font_a());
    object.take_changes();
    object.font_event(&FontEvent::Removed { font: font_a() });
    assert_eq!(object.state().font_loaded(), Some(false));
    assert!(object.state_changed());
    assert!(object.needs_sync());
}

#[test]
fn events_for_another_font_are_ignored() {
    let mut object = TextObject::new(font_a());
    object.take_changes();
    object.font_event(&FontEvent::Created { font: font_b() });
    object.font_event(&FontEvent::Removed { font: font_b() });
    assert_eq!(object.state().font_loaded(), None);
    assert!(!object.needs_sync());
}

#[test]
fn modified_event_is_ignored() {
    let mut object = TextObject::new(font_a());
    object.take_changes();
    object.font_event(&FontEvent::Modified { font: font_a() });
    assert_eq!(object.state().font_loaded(), None);
    assert!(!object.needs_sync());
}

#[test]
fn repeated_event_is_harmless() {
    let mut object = TextObject::new(font_a());
    object.take_changes();
    object.font_event(&FontEvent::Created { font: font_a() });
    object.font_event(&FontEvent::Created { font: font_a() });
    assert_eq!(object.state().font_loaded(), Some(true));
    assert!(object.needs_sync());
    assert_eq!(object.state().warning_trigger_count(), 0);
}

#[test]
fn availability_tells_own_font_from_others() {
    let created = FontEvent::Created { font: font_a() };
    let removed = FontEvent::Removed { font: font_a() };
    let modified = FontEvent::Modified { font: font_a() };
    assert_eq!(created.availability(&font_a()), Some(true));
    assert_eq!(created.availability(&font_b()), None);
    assert_eq!(removed.availability(&font_a()), Some(false));
    assert_eq!(removed.availability(&font_b()), None);
    assert_eq!(modified.availability(&font_a()), None);
}

#[test]
fn missing_font_is_counted_on_the_record() {
    let mut object = TextObject::new(font_a());
    assert!(!object.record_missing_font());
    assert_eq!(object.state().warning_trigger_count(), 1);
    assert!(object.needs_sync());
}
