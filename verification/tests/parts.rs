use window_clipboard::atoms::{Atoms, Context};
use window_clipboard::error::Error;
use window_clipboard::platform::android::AndroidClipboardError;
use window_clipboard::platform::ios::iOSClipboardError;
use window_clipboard::platform::{connect, Backend, DisplayHandle, Features, LinuxClipboardError};
use window_clipboard::store::SelectionStore;
use window_clipboard::text::{decode, encode};
use window_clipboard::writer::{confirm_owner, write_selection, SetSelectionOwner};

#[test]
fn store_starts_empty() {
    let store = SelectionStore::new();
    assert!(!store.contains(300));
    assert!(store.get(300).is_none());
}

#[test]
fn store_insert_overwrites_and_keeps_other_selections() {
    let mut store = SelectionStore::new();
    store.insert(300, 303, b"one".to_vec());
    store.insert(1, 303, b"primary".to_vec());
    store.insert(300, 31, b"two".to_vec());
    let offer = store.get(300).unwrap();
    assert_eq!((offer.target, offer.value.as_slice()), (31, &b"two"[..]));
    let other = store.get(1).unwrap();
    assert_eq!((other.target, other.value.as_slice()), (303, &b"primary"[..]));
}

#[test]
fn store_remove_withdraws_one_selection() {
    let mut store = SelectionStore::new();
    store.insert(300, 303, b"one".to_vec());
    store.insert(1, 303, b"primary".to_vec());
    store.remove(300);
    assert!(!store.contains(300));
    assert!(store.contains(1));
    store.remove(300);
    assert!(!store.contains(300));
}

#[test]
fn text_is_encoded_as_utf8() {
    assert_eq!(encode(&"h\u{e9}llo".to_string()), vec![0x68, 0xc3, 0xa9, 0x6c, 0x6c, 0x6f]);
    assert_eq!(encode(&String::new()), Vec::<u8>::new());
}

#[test]
fn utf8_is_decoded_and_anything_else_refused() {
    assert_eq!(decode(vec![0x68, 0xc3, 0xa9]), Ok("h\u{e9}".to_string()));
    assert_eq!(decode(Vec::new()), Ok(String::new()));
    assert_eq!(decode(vec![0xff]), Err(Error::InvalidUtf8));
    assert_eq!(decode(vec![0xe2, 0x82]), Err(Error::InvalidUtf8));
    assert_eq!(decode(vec![0xed, 0xa0, 0x80]), Err(Error::InvalidUtf8));
}

#[test]
fn decoding_undoes_encoding() {
    let text = "\u{1f600} caf\u{e9} \u{4e16}\u{754c}".to_string();
    assert_eq!(decode(encode(&text)), Ok(text));
}

#[test]
fn write_selection_offers_utf8_and_claims_for_the_writer_window() {
    let writer = Context::new(0, 91, Atoms::new(300, 301, 302, 303, 304));
    let mut store = SelectionStore::new();
    store.insert(1, 303, b"kept".to_vec());
    let claim = write_selection(&mut store, &writer, 300, &"h\u{e9}".to_string());
    assert_eq!(claim, SetSelectionOwner { owner: 91, selection: 300, time: 0 });
    let offer = store.get(300).unwrap();
    assert_eq!((offer.target, offer.value.as_slice()), (303, &[0x68, 0xc3, 0xa9][..]));
    assert_eq!(store.get(1).unwrap().value, b"kept".to_vec());
}

#[test]
fn owner_check_accepts_only_the_writer_window() {
    let writer = Context::new(0, 91, Atoms::new(300, 301, 302, 303, 304));
    assert_eq!(confirm_owner(&writer, 91), Ok(()));
    assert_eq!(confirm_owner(&writer, 92), Err(Error::InvalidOwner));
    assert_eq!(confirm_owner(&writer, 0), Err(Error::InvalidOwner));
}

#[test]
fn backend_follows_the_display_and_the_build() {
    let both = Features { wayland: true, x11: true };
    assert_eq!(connect(DisplayHandle::Wayland, both), Ok(Backend::Wayland));
    assert_eq!(connect(DisplayHandle::Xlib, both), Ok(Backend::X11));
    assert_eq!(connect(DisplayHandle::Xcb, both), Ok(Backend::X11));
    assert_eq!(connect(DisplayHandle::Other, both), Err(LinuxClipboardError));
    let x11 = Features { wayland: false, x11: true };
    assert_eq!(connect(DisplayHandle::Wayland, x11), Err(LinuxClipboardError));
    assert_eq!(connect(DisplayHandle::Xcb, x11), Ok(Backend::X11));
    let wayland = Features { wayland: true, x11: false };
    assert_eq!(connect(DisplayHandle::Xlib, wayland), Err(LinuxClipboardError));
    assert_eq!(connect(DisplayHandle::Xcb, wayland), Err(LinuxClipboardError));
    assert_eq!(connect(DisplayHandle::Wayland, wayland), Ok(Backend::Wayland));
}

#[test]
fn platform_error_messages() {
    assert_eq!(AndroidClipboardError::Unimplemented.message(), "Unimplemented");
    assert_eq!(iOSClipboardError::Unimplemented.message(), "Unimplemented");
    assert_eq!(
        LinuxClipboardError.message(),
        "This window server's clipboard feature is not enabled"
    );
}

#[test]
fn error_descriptions() {
    assert_eq!(Error::ConnectionFailed.description(), "connection failed");
    assert_eq!(Error::ConnectionErrored.description(), "connection errored");
    assert_eq!(Error::ReplyError.description(), "reply failed");
    assert_eq!(Error::Timeout.description(), "timeout");
    assert_eq!(Error::UnexpectedType(31).description(), "unexpected type");
    assert_eq!(Error::InvalidUtf8.description(), "invalid utf8 string");
    assert_eq!(Error::SelectionLocked.description(), "deadlock");
    assert_eq!(Error::InvalidOwner.description(), "invalid selection owner");
    assert_eq!(Error::SendError.description(), "worker communication error");
}

#[test]
fn android_clipboard_is_unimplemented() {
    let mut clipboard = window_clipboard::platform::android::Clipboard::new().unwrap();
    assert_eq!(clipboard.read(), Err(AndroidClipboardError::Unimplemented));
    assert_eq!(clipboard.write("x".to_string()), Err(AndroidClipboardError::Unimplemented));
}

#[test]
fn ios_clipboard_is_unimplemented() {
    let clipboard = window_clipboard::platform::ios::Clipboard::new().unwrap();
    assert_eq!(clipboard.read(), Err(iOSClipboardError::Unimplemented));
}

#[test]
fn dummy_clipboard_reads_empty_whatever_was_written() {
    let mut clipboard = window_clipboard::platform::dummy::Clipboard::connect();
    assert_eq!(clipboard.read(), String::new());
    clipboard.write("dropped".to_string());
    assert_eq!(clipboard.read(), String::new());
}
