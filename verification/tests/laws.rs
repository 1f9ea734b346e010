use ink_receipts::bundle::Bundle;
use ink_receipts::error::Error;
use ink_receipts::event::TraceEvent;
use ink_receipts::kernel::Digest;

#[test]
fn bundle_keeps_the_first_hundred_receipts_in_order() {
    let mut bundle = Bundle::new();
    for i in 0..105u32 {
        let byte = (i % 7) as u8;
        let result = bundle.add_receipt(Digest::new([byte; 32]));
        if i < 100 {
            assert_eq!(result, Ok(()));
        } else {
            assert_eq!(result, Err(Error::BundleTooLarge));
        }
    }
    let receipts = bundle.receipts();
    assert_eq!(receipts.len(), 100);
    for (i, d) in receipts.iter().enumerate() {
        assert_eq!(d.0, [(i % 7) as u8; 32]);
    }
    let sealed = bundle.seal().unwrap();
    assert_eq!(sealed.receipts().len(), 100);
    assert_eq!(sealed.receipts()[8].0, [1u8; 32]);
}

#[test]
fn event_content_is_the_last_accepted_value() {
    let mut event = TraceEvent::new();
    assert!(event.content().is_empty());
    assert_eq!(event.set_content(b"first"), Ok(()));
    assert_eq!(event.set_content(b""), Err(Error::EmptyValue));
    assert_eq!(event.set_content(&[1u8; 1025]), Err(Error::ValueTooLong));
    assert_eq!(event.content(), b"first");
    assert_eq!(event.set_content(b"second"), Ok(()));
    assert_eq!(event.content(), b"second");
}

#[test]
fn defaults_equal_new_values() {
    let bundle = Bundle::default();
    assert!(bundle.receipts().is_empty());
    assert_eq!(bundle.root_hash.0, [0u8; 32]);
    let event = TraceEvent::default();
    assert_eq!(event.sequence, 0);
    assert_eq!(event.subject_hash.0, [0u8; 32]);
    assert!(event.content().is_empty());
}
