use ptwebhook::payload::build_payload;
use ptwebhook::session::FormSession;
use ptwebhook::template::{
    FieldDefinition, LoadEntry, Template, TemplateStore, WebhookSettings,
};
use ptwebhook::wizard::{Wizard, WizardAction, WizardEvent, WizardState};
use ptwebhook::dispatch::DispatchOutcome;

fn field(label: &str, default_value: Option<&str>) -> FieldDefinition {
    FieldDefinition {
        kind: String::from("text"),
        label: String::from(label),
        placeholder: None,
        required: None,
        options: None,
        default_value: default_value.map(String::from),
    }
}

fn two_template_store() -> TemplateStore {
    let a = Template {
        id: String::from("a"),
        name: String::from("Template A"),
        description: String::from("first"),
        fields: vec![
            (String::from("status"), field("Status", Some("draft"))),
            (String::from("note"), field("Note", None)),
        ],
        webhook: WebhookSettings { username: None, avatar_url: None, color: Some(0xAB) },
    };
    let b = Template {
        id: String::from("b"),
        name: String::from("Template B"),
        description: String::from("second"),
        fields: vec![(String::from("only"), field("Only", None))],
        webhook: WebhookSettings { username: None, avatar_url: None, color: None },
    };
    TemplateStore::build(vec![LoadEntry::Parsed(a), LoadEntry::Parsed(b)])
}

fn values(w: &Wizard) -> Vec<String> {
    w.session.as_ref().unwrap().values.clone()
}

#[test]
fn template_navigation_wraps_both_ends() {
    let mut w = Wizard::new(two_template_store());
    assert_eq!(w.selected, Some(0));
    w.next_template();
    assert_eq!(w.selected, Some(1));
    w.next_template();
    assert_eq!(w.selected, Some(0));
    w.previous_template();
    assert_eq!(w.selected, Some(1));
    w.previous_template();
    assert_eq!(w.selected, Some(0));
}

#[test]
fn navigation_on_empty_store_stands_still() {
    let mut w = Wizard::new(TemplateStore::build(Vec::new()));
    assert_eq!(w.selected, None);
    w.next_template();
    assert_eq!(w.selected, None);
    w.previous_template();
    assert_eq!(w.selected, None);
    w.select_template();
    assert!(matches!(w.state, WizardState::Selecting));
}

#[test]
fn field_navigation_clamps_both_ends() {
    let mut w = Wizard::new(two_template_store());
    w.select_template();
    let sess = w.session.as_ref().unwrap();
    assert_eq!(sess.cursor, 0);
    w.previous_field();
    assert_eq!(w.session.as_ref().unwrap().cursor, 0);
    w.next_field();
    assert_eq!(w.session.as_ref().unwrap().cursor, 1);
    w.next_field();
    assert_eq!(w.session.as_ref().unwrap().cursor, 1);
}

#[test]
fn select_reinitializes_values_from_defaults() {
    let mut w = Wizard::new(two_template_store());
    w.select_template();
    assert_eq!(values(&w), vec![String::from("draft"), String::new()]);
    w.append_char('x');
    assert_eq!(values(&w), vec![String::from("draftx"), String::new()]);
    w.cancel_edit();
    assert_eq!(values(&w), vec![String::from("draftx"), String::new()]);
    w.select_template();
    assert_eq!(values(&w), vec![String::from("draft"), String::new()]);
}

#[test]
fn backspace_removes_exactly_one_character() {
    let mut w = Wizard::new(two_template_store());
    w.select_template();
    w.backspace();
    assert_eq!(values(&w)[0], "draf");
    w.backspace();
    assert_eq!(values(&w)[0], "dra");
}

#[test]
fn backspace_on_empty_value_is_noop() {
    let mut w = Wizard::new(two_template_store());
    w.select_template();
    w.next_field();
    w.backspace();
    w.backspace();
    assert_eq!(values(&w), vec![String::from("draft"), String::new()]);
}

#[test]
fn append_handles_multibyte_characters() {
    let mut w = Wizard::new(two_template_store());
    w.select_template();
    w.next_field();
    w.append_char('é');
    w.append_char('漢');
    assert_eq!(values(&w)[1], "é漢");
    w.backspace();
    assert_eq!(values(&w)[1], "é");
    w.backspace();
    assert_eq!(values(&w)[1], "");
}

#[test]
fn current_value_follows_the_cursor() {
    let store = two_template_store();
    let t = store.get(0);
    let mut sess = FormSession::new(t);
    assert_eq!(sess.current_value(t), "draft");
    sess.next_field(t);
    assert_eq!(sess.current_value(t), "");
    sess.append_char(t, 'a');
    assert_eq!(sess.current_value(t), "a");
}

#[test]
fn session_on_fieldless_template_has_no_values() {
    let t = Template {
        id: String::from("none"),
        name: String::from("No Fields"),
        description: String::from("empty form"),
        fields: Vec::new(),
        webhook: WebhookSettings { username: None, avatar_url: None, color: None },
    };
    let sess = FormSession::new(&t);
    assert!(sess.values.is_empty());
    assert_eq!(sess.cursor, 0);
    assert_eq!(sess.current_value(&t), "");
}

#[test]
fn payload_skips_empty_values_keeps_order() {
    let store = two_template_store();
    let t = store.get(0);
    let mut sess = FormSession::new(t);
    sess.next_field(t);
    sess.append_char(t, 'n');
    let m = build_payload(t, &sess);
    assert_eq!(m.embeds.len(), 1);
    let embed = &m.embeds[0];
    assert_eq!(embed.title.as_deref(), Some("Template A"));
    assert_eq!(embed.description.as_deref(), Some("first"));
    assert_eq!(embed.color, Some(0xAB));
    let pairs: Vec<(&str, &str)> = embed
        .fields
        .iter()
        .map(|f| (f.name.as_str(), f.value.as_str()))
        .collect();
    assert_eq!(pairs, vec![("Status", "draft"), ("Note", "n")]);
    assert!(embed.fields.iter().all(|f| !f.inline));
}

#[test]
fn payload_of_all_empty_values_has_no_fields() {
    let store = two_template_store();
    let t = store.get(1);
    let sess = FormSession::new(t);
    let m = build_payload(t, &sess);
    assert!(m.embeds[0].fields.is_empty());
}

#[test]
fn full_run_through_the_machine() {
    let mut w = Wizard::new(two_template_store());

    // Confirm template A; its first field shows the declared default.
    let a = w.step(WizardEvent::Confirm);
    assert!(matches!(a, WizardAction::Continue));
    assert!(matches!(w.state, WizardState::Editing));
    assert_eq!(values(&w)[0], "draft");

    // Type one character into field 0, move down, leave field 1 empty.
    w.step(WizardEvent::CharInput('x'));
    assert_eq!(values(&w)[0], "draftx");
    w.step(WizardEvent::Next);

    // Confirm to preview, then confirm to dispatch.
    w.step(WizardEvent::Confirm);
    assert!(matches!(w.state, WizardState::Previewing));
    let action = w.step(WizardEvent::Confirm);
    assert!(matches!(w.state, WizardState::Dispatching));
    let m = match action {
        WizardAction::StartDispatch(m) => m,
        WizardAction::Continue => panic!("expected a dispatch request"),
    };
    let pairs: Vec<(&str, &str)> = m.embeds[0]
        .fields
        .iter()
        .map(|f| (f.name.as_str(), f.value.as_str()))
        .collect();
    assert_eq!(pairs, vec![("Status", "draftx")]);
}

#[test]
fn preview_cancel_returns_to_editing_at_cursor() {
    let mut w = Wizard::new(two_template_store());
    w.select_template();
    w.next_field();
    w.confirm_edit();
    assert!(matches!(w.state, WizardState::Previewing));
    w.cancel_preview();
    assert!(matches!(w.state, WizardState::Editing));
    assert_eq!(w.session.as_ref().unwrap().cursor, 1);
}

#[test]
fn dispatch_outcome_reaches_completed_and_back() {
    let mut w = Wizard::new(two_template_store());
    w.select_template();
    w.confirm_edit();
    let _ = w.begin_dispatch();
    w.step(WizardEvent::DispatchDone(DispatchOutcome::Success));
    assert!(matches!(
        w.state,
        WizardState::Completed(DispatchOutcome::Success)
    ));
    w.step(WizardEvent::Confirm);
    assert!(matches!(w.state, WizardState::Selecting));
    assert!(w.session.is_none());
    assert!(w.active.is_none());
}

#[test]
fn dispatch_can_be_cancelled_back_to_preview() {
    let mut w = Wizard::new(two_template_store());
    w.select_template();
    w.confirm_edit();
    let _ = w.begin_dispatch();
    assert!(matches!(w.state, WizardState::Dispatching));
    w.cancel_dispatch();
    assert!(matches!(w.state, WizardState::Previewing));
}
