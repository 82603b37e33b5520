use modern_webview::CallbackTable;
use modern_webview::Command;
use modern_webview::Content;
use modern_webview::Error;
use modern_webview::NativeCreate;
use modern_webview::NativeStatus;
use modern_webview::WebView;
use modern_webview::webview_dispatch_callback;

fn running_webview() -> WebView<'static> {
    WebView::new(
        "dispatch",
        Content::Html("<h1>dispatch</h1>".to_string()),
        (800, 600),
        true,
        NativeCreate::Created(41),
        NativeStatus::Completed,
    )
    .expect("construction must succeed")
}

#[test]
fn callback_table_reclaims_exactly_once() {
    let mut table: CallbackTable<String> = CallbackTable::new();
    let first = table.register("first".to_string());
    let second = table.register("second".to_string());
    assert_ne!(first, second, "tokens are fresh");
    assert_eq!(table.len(), 2);
    assert_eq!(table.reclaim(first), Some("first".to_string()));
    assert_eq!(table.reclaim(first), None, "a second reclamation finds nothing");
    assert_eq!(table.len(), 1);
    assert_eq!(table.reclaim(second), Some("second".to_string()));
    assert_eq!(table.reclaim(second), None);
    assert_eq!(table.len(), 0);
}

#[test]
fn callback_table_misses_unknown_tokens() {
    let mut table: CallbackTable<u32> = CallbackTable::new();
    assert_eq!(table.reclaim(0), None);
    let token = table.register(7);
    assert_eq!(table.reclaim(token.wrapping_add(1)), None);
    assert_eq!(table.len(), 1);
}

#[test]
fn dispatch_posts_and_ui_thread_reclaims() {
    let mut webview = running_webview();
    let dispatcher = webview.dispatcher();
    let token = dispatcher
        .dispatch(
            &mut webview,
            Command::EvalScript("window.external.notify('ping')".to_string()),
            NativeStatus::Completed,
        )
        .expect("the post must be accepted");
    assert_eq!(webview.pending_count(), 1);
    let work = webview_dispatch_callback(&mut webview, token);
    assert_eq!(
        work,
        Some(Command::EvalScript("window.external.notify('ping')".to_string()))
    );
    assert_eq!(webview.pending_count(), 0);
    assert_eq!(
        webview_dispatch_callback(&mut webview, token),
        None,
        "each posting is reclaimed exactly once"
    );
}

#[test]
fn dispatch_failed_post_keeps_ownership_this_side() {
    let mut webview = running_webview();
    let dispatcher = webview.dispatcher();
    let r = dispatcher.dispatch(
        &mut webview,
        Command::InjectCss(".x {}".to_string()),
        NativeStatus::Failed(6, "queue full".to_string()),
    );
    assert_eq!(r.err(), Some(Error::Runtime(6, "queue full".to_string())));
    assert_eq!(webview.pending_count(), 0, "nothing was transferred");
}

#[test]
fn many_dispatches_all_execute_exactly_once() {
    let mut webview = running_webview();
    // Clones share the surface identity and may be handed to worker
    // threads; each accepted post lands in the table under its own token.
    let dispatchers = [webview.dispatcher(), webview.dispatcher(), webview.dispatcher()];
    let mut tokens = Vec::new();
    for (i, dispatcher) in dispatchers.iter().enumerate() {
        for j in 0..4 {
            let token = dispatcher
                .dispatch(
                    &mut webview,
                    Command::EvalScript(format!("work({}, {})", i, j)),
                    NativeStatus::Completed,
                )
                .expect("the post must be accepted");
            tokens.push(token);
        }
    }
    assert_eq!(webview.pending_count(), 12);
    let mut sorted = tokens.clone();
    sorted.sort_unstable();
    sorted.dedup();
    assert_eq!(sorted.len(), 12, "every posting got its own token");
    let mut executed = 0;
    for token in &tokens {
        if webview_dispatch_callback(&mut webview, *token).is_some() {
            executed += 1;
        }
        assert_eq!(webview_dispatch_callback(&mut webview, *token), None);
    }
    assert_eq!(executed, 12, "every posting ran exactly once");
    assert_eq!(webview.pending_count(), 0);
}
