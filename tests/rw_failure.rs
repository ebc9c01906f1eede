use clipline::clipboard::ClipboardIO;
use clipline::handler::{Handler, OpError, OpResult};

#[derive(Default)]
struct MockClipboard(Option<String>);

impl ClipboardIO for MockClipboard {
    fn get_text(&mut self) -> anyhow::Result<String> {
        match self.0 {
            Some(ref text) => Ok(text.clone()),
            None => Err(anyhow::Error::msg("CP_READ_ERROR")),
        }
    }
    fn set_text(&mut self, _text: &str) -> anyhow::Result<()> {
        Err(anyhow::Error::msg("CP_WRITE_ERROR"))
    }
}

#[test]
fn skips_update_on_failed_cp_read() {
    let mut mock_clipboard = MockClipboard::default();
    mock_clipboard.0 = None;

    let mut handler = Handler::new(&mut mock_clipboard);

    let res = handler.handle_change();

    assert_eq!(
        res.message(),
        "Error reading from clipboard: CP_READ_ERROR".to_string()
    );
    assert_eq!(
        res,
        OpResult::Error(OpError::ReadError("CP_READ_ERROR".to_string()))
    );
}

#[test]
fn skips_update_on_failed_cp_write() {
    let mut mock_clipboard = MockClipboard::default();
    mock_clipboard.0 = Some("test\n".to_string());

    let mut handler = Handler::new(&mut mock_clipboard);

    let res = handler.handle_change();

    assert_eq!(
        res.message(),
        "Error writing to clipboard: CP_WRITE_ERROR".to_string()
    );
    assert_eq!(
        res,
        OpResult::Error(OpError::WriteError("CP_WRITE_ERROR".to_string()))
    );
}

#[test]
fn failed_read_leaves_cache_and_recovers() {
    let mut mock_clipboard = MockClipboard(None);
    {
        let mut handler = Handler::new(&mut mock_clipboard);
        assert!(matches!(
            handler.handle_change(),
            OpResult::Error(OpError::ReadError(_))
        ));
        assert_eq!(handler.cached(), None);
    }
    mock_clipboard.0 = Some("ok".to_string());
    let mut handler = Handler::new(&mut mock_clipboard);
    assert_eq!(handler.handle_change(), OpResult::NoContentChange);
}

#[test]
fn failed_write_keeps_raw_text_cached() {
    let mut mock_clipboard = MockClipboard(Some("test\n".to_string()));
    let mut handler = Handler::new(&mut mock_clipboard);
    assert!(matches!(
        handler.handle_change(),
        OpResult::Error(OpError::WriteError(_))
    ));
    assert_eq!(handler.cached(), Some("test\n".to_string()));
    assert_eq!(handler.handle_change(), OpResult::CacheHit);
    drop(handler);
    assert_eq!(mock_clipboard.0, Some("test\n".to_string()));
}
