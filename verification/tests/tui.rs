use ink_receipts::tui::{string_or_none, trim_text, App, FieldId, KeyCode, KeyPress, TuiAction};

fn press(code: KeyCode) -> KeyPress {
    KeyPress { code, control: false, press: true }
}

#[test]
fn fields_come_in_order_with_their_labels() {
    let all = FieldId::all();
    assert_eq!(all.len(), 7);
    assert_eq!(all[0], FieldId::Receipt);
    assert_eq!(all[6], FieldId::PinnedKey);
    assert_eq!(FieldId::TrustRegistry.label(), "Trust registry path");
    assert_eq!(FieldId::Policy.label(), "Verify policy path");
}

#[test]
fn keys_edit_move_verify_and_quit() {
    let mut app = App::new();
    assert_eq!(app.result, "Press F5 to verify, q to quit, tab to move fields.");
    for c in "r.json".chars() {
        assert_eq!(app.handle_key(press(KeyCode::Char(c))), TuiAction::Continue);
    }
    assert_eq!(app.value(FieldId::Receipt), "r.json");
    app.handle_key(press(KeyCode::Backspace));
    assert_eq!(app.value(FieldId::Receipt), "r.jso");
    app.handle_key(press(KeyCode::BackTab));
    assert_eq!(app.selected_field(), FieldId::PinnedKey);
    app.handle_key(press(KeyCode::Down));
    assert_eq!(app.selected_field(), FieldId::Receipt);
    app.handle_key(KeyPress { code: KeyCode::Char('v'), control: true, press: true });
    assert_eq!(app.value(FieldId::Receipt), "r.jso");
    app.handle_key(KeyPress { code: KeyCode::Char('z'), control: false, press: false });
    assert_eq!(app.value(FieldId::Receipt), "r.jso");
    assert_eq!(app.handle_key(press(KeyCode::F(5))), TuiAction::Verify);
    assert_eq!(app.handle_key(press(KeyCode::Enter)), TuiAction::Verify);
    assert_eq!(app.handle_key(press(KeyCode::Char('q'))), TuiAction::Quit);
}

#[test]
fn verify_inputs_are_trimmed_fields() {
    let mut app = App::new();
    for c in "  receipt.json \t".chars() {
        app.handle_key(press(KeyCode::Char(c)));
    }
    app.handle_key(press(KeyCode::Tab));
    app.handle_key(press(KeyCode::Char(' ')));
    let inputs = app.verify_inputs();
    assert_eq!(inputs.receipt, Some("receipt.json"));
    assert_eq!(inputs.manifest, None);
    assert_eq!(inputs.pinned_key, None);
    assert_eq!(trim_text("\u{3000}key\u{a0}"), "key");
    assert_eq!(string_or_none(" \n "), None);
}
