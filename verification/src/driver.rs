//! The driver loop: the UI thread's only point of re-entrancy into host
//! callbacks. Raw notifications pulled from the native surface are
//! translated one at a time; a quit notification closes the facade and ends
//! the loop without delivering anything further, an unrecognized
//! notification is skipped, and every other event is delivered to the host.

use vstd::prelude::*;

use crate::error::Error;
use crate::event::Event;
use crate::event::spec_translate;
use crate::event::translate_event;
use crate::webview::Content;
use crate::webview::NativeCreate;
use crate::webview::NativeStatus;
use crate::webview::WebView;
use crate::webview::spec_content_str;
use crate::validate::has_nul;

verus! {

/// What one turn of the driver loop decided.
#[derive(Debug, Clone, PartialEq, Eq)]
pub enum Step {
    /// Hand this event to the host callback, then continue.
    Deliver(Event),
    /// The notification was unrecognized or empty; continue.
    Skip,
    /// A quit notification arrived; the facade is closed and the loop ends.
    Stop,
}

/// One turn of the driver loop over a raw (code, payload) notification. A
/// quit closes the facade — releasing the surface — and stops the loop; quit
/// is never delivered to the host callback. An unrecognized notification is
/// skipped. Every other event is delivered, with the facade untouched.
pub fn driver_step(webview: &mut WebView, code: u32, payload: Option<String>) -> (r: Step)
    requires
        old(webview).wf(),
        old(webview).lifecycle() is Running,
    ensures
        final(webview).wf(),
        final(webview).surface_id() == old(webview).surface_id(),
        final(webview).files() == old(webview).files(),
        final(webview).pending() == old(webview).pending(),
        final(webview).pending_next() == old(webview).pending_next(),
        spec_translate(code, payload) == Some(Event::Quit) ==> (r == Step::Stop
            && final(webview).lifecycle() is Closed),
        spec_translate(code, payload) is None ==> (r == Step::Skip
            && final(webview).lifecycle() is Running),
        spec_translate(code, payload) matches Some(event) ==> (event != Event::Quit ==> (r
            == Step::Deliver(event) && final(webview).lifecycle() is Running)),
{
    match translate_event(code, payload) {
        None => Step::Skip,
        Some(Event::Quit) => {
            webview.close();
            Step::Stop
        },
        Some(event) => Step::Deliver(event),
    }
}

/// The events a raw notification stream delivers to the host callback, in
/// order: the translations of its recognized notifications, cut off at the
/// first quit (which itself is not delivered).
pub open spec fn spec_deliveries(raw: Seq<(u32, Option<String>)>) -> Seq<Event>
    decreases raw.len(),
{
    if raw.len() == 0 {
        Seq::empty()
    } else {
        let head = spec_translate(raw[0].0, raw[0].1);
        if head == Some(Event::Quit) {
            Seq::empty()
        } else if head is Some {
            seq![head->0] + spec_deliveries(raw.drop_first())
        } else {
            spec_deliveries(raw.drop_first())
        }
    }
}

/// Whether a raw notification stream holds a quit notification.
pub open spec fn spec_hits_quit(raw: Seq<(u32, Option<String>)>) -> bool
    decreases raw.len(),
{
    if raw.len() == 0 {
        false
    } else if spec_translate(raw[0].0, raw[0].1) == Some(Event::Quit) {
        true
    } else {
        spec_hits_quit(raw.drop_first())
    }
}

/// Drives a stream of raw notifications through the loop and returns the
/// events that were delivered to the host callback, in order. The loop ends
/// at the first quit notification, which closes the facade; if the stream
/// runs out without one, the facade is still running and may be driven
/// further.
pub fn run_events(webview: &mut WebView, raw_events: Vec<(u32, Option<String>)>) -> (delivered:
    Vec<Event>)
    requires
        old(webview).wf(),
        old(webview).lifecycle() is Running,
    ensures
        final(webview).wf(),
        final(webview).surface_id() == old(webview).surface_id(),
        final(webview).files() == old(webview).files(),
        final(webview).pending() == old(webview).pending(),
        final(webview).pending_next() == old(webview).pending_next(),
        delivered@ == spec_deliveries(raw_events@),
        final(webview).lifecycle() is Closed <==> spec_hits_quit(raw_events@),
{
    let ghost raw0 = raw_events@;
    let mut raw = raw_events;
    let mut delivered: Vec<Event> = Vec::new();
    proof {
        assert(delivered@ + spec_deliveries(raw@) =~= spec_deliveries(raw0));
    }
    while raw.len() > 0
        invariant
            raw0 == raw_events@,
            webview.wf(),
            webview.lifecycle() is Running,
            webview.surface_id() == old(webview).surface_id(),
            webview.files() == old(webview).files(),
            webview.pending() == old(webview).pending(),
            webview.pending_next() == old(webview).pending_next(),
            delivered@ + spec_deliveries(raw@) == spec_deliveries(raw0),
            spec_hits_quit(raw@) == spec_hits_quit(raw0),
        decreases raw.len(),
    {
        let ghost raw_pre = raw@;
        let (code, payload) = raw.remove(0);
        proof {
            assert(raw_pre.drop_first() =~= raw@);
            assert(raw_pre[0].0 == code && raw_pre[0].1 == payload);
        }
        match driver_step(webview, code, payload) {
            Step::Skip => {
                proof {
                    assert(spec_deliveries(raw_pre) == spec_deliveries(raw@));
                }
            },
            Step::Deliver(event) => {
                let ghost delivered_pre = delivered@;
                delivered.push(event);
                proof {
                    assert(spec_deliveries(raw_pre) == seq![event] + spec_deliveries(raw@));
                    assert(delivered@ + spec_deliveries(raw@) =~= delivered_pre + spec_deliveries(
                        raw_pre,
                    ));
                }
            },
            Step::Stop => {
                proof {
                    assert(spec_deliveries(raw_pre) =~= Seq::<Event>::empty());
                    assert(delivered@ + spec_deliveries(raw_pre) =~= delivered@);
                    assert(spec_hits_quit(raw_pre));
                }
                return delivered;
            },
        }
    }
    proof {
        assert(delivered@ + spec_deliveries(raw@) =~= delivered@);
    }
    delivered
}

/// The top-level driver. Constructs a facade — failing exactly as
/// `WebView::new` does — drives the raw notification stream through the
/// loop, and tears the facade down before returning, whichever way the loop
/// exited; the surface is thus released exactly once on every path that
/// created one. Returns the events that were delivered to the host callback,
/// in order.
#[allow(unused_variables)]
pub fn webview(
    title: &str,
    content: Content<'_>,
    size: (i32, i32),
    resizable: bool,
    create: NativeCreate,
    navigate: NativeStatus,
    raw_events: Vec<(u32, Option<String>)>,
) -> (r: Result<Vec<Event>, Error>)
    ensures
        has_nul(title@) || has_nul(spec_content_str(content)) ==> r == Err::<Vec<Event>, Error>(
            Error::InvalidArgument,
        ),
        !has_nul(title@) && !has_nul(spec_content_str(content)) ==> (
        create matches NativeCreate::Failed(code, message) ==> r == Err::<Vec<Event>, Error>(
            Error::Runtime(code, message),
        )),
        !has_nul(title@) && !has_nul(spec_content_str(content)) && create is Created ==> (
        navigate matches NativeStatus::Failed(code, message) ==> r == Err::<Vec<Event>, Error>(
            Error::Runtime(code, message),
        )),
        r is Ok <==> !has_nul(title@) && !has_nul(spec_content_str(content)) && create is Created
            && navigate is Completed,
        r matches Ok(delivered) ==> delivered@ == spec_deliveries(raw_events@),
{
    let mut w = match WebView::new(title, content, size, resizable, create, navigate) {
        Ok(w) => w,
        Err(e) => {
            return Err(e);
        },
    };
    let delivered = run_events(&mut w, raw_events);
    w.close();
    Ok(delivered)
}

/// Law: a quit notification ends delivery. If the raw stream holds a quit
/// notification at some position, nothing from beyond that position is ever
/// delivered to the host callback: the stream delivers exactly what its
/// prefix before the quit delivers.
pub proof fn lemma_no_delivery_after_quit(raw: Seq<(u32, Option<String>)>, i: int)
    requires
        0 <= i < raw.len(),
        spec_translate(raw[i].0, raw[i].1) == Some(Event::Quit),
    ensures
        spec_deliveries(raw) == spec_deliveries(raw.take(i)),
    decreases i,
{
    if i == 0 {
        assert(raw.take(0) =~= Seq::empty());
    } else {
        let head = spec_translate(raw[0].0, raw[0].1);
        assert(raw.take(i)[0] == raw[0]);
        if head != Some(Event::Quit) {
            assert(raw.drop_first()[i - 1] == raw[i]);
            lemma_no_delivery_after_quit(raw.drop_first(), i - 1);
            assert(raw.take(i).drop_first() =~= raw.drop_first().take(i - 1));
        }
    }
}

} // verus!
