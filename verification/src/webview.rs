//! The facade that owns one native rendering surface: construction bound to
//! exactly one kind of initial content, synchronous script execution and
//! style injection, the driver loop over raw notifications, cross-thread
//! dispatch, and teardown.
//!
//! The native layer enters this module as data: each call's outcome — the
//! status code, the created handle, the script's reply, with the message
//! fetched from the native last-error slot — is a plain value, and every
//! contract holds for every outcome the native layer may report. String
//! arguments are validated before anything would be handed across the
//! boundary: an embedded null byte fails the call with `InvalidArgument`
//! whatever the native outcome says.

use vstd::prelude::*;

use crate::dispatch::CallbackTable;
use crate::dispatch::Command;
use crate::error::Error;
use crate::resolver::ContentResolver;
use crate::resolver::dir_files;
use crate::resolver::spec_strip_leading_separators;
use crate::validate::contains_nul;
use crate::validate::has_nul;

verus! {

/// The kinds of initial content a surface can be bound to, mutually
/// exclusive at construction.
pub enum Content<'a> {
    /// An inline HTML source string.
    Html(String),
    /// An http or https URL.
    Url(String),
    /// A directory of files embedded in the binary, and the relative path of
    /// the entry page within it.
    Dir(include_dir::Dir<'a>, String),
}

/// The string argument of a content choice that must cross the native
/// boundary, and is therefore checked for embedded null bytes.
pub open spec fn spec_content_str(content: Content) -> Seq<char> {
    match content {
        Content::Html(s) => s@,
        Content::Url(s) => s@,
        Content::Dir(_, source) => source@,
    }
}

/// The virtual-content table a content choice brings: the embedded
/// directory's files for `Dir`, and nothing for the other kinds.
pub open spec fn spec_content_files(content: Content) -> Map<Seq<char>, Seq<u8>> {
    match content {
        Content::Dir(d, _) => dir_files(d),
        _ => Map::empty(),
    }
}

/// What the native layer reported for a request to create a surface: the
/// new surface's handle identity, or a failure code with the message fetched
/// from the last-error slot.
pub enum NativeCreate {
    Created(u64),
    Failed(i32, String),
}

/// What the native layer reported for a request with no result value.
pub enum NativeStatus {
    Completed,
    Failed(i32, String),
}

/// What the native layer reported for a script execution: the script's
/// string result, or a failure.
pub enum NativeReply {
    Value(String),
    Failed(i32, String),
}

/// The facade's lifetime: `Running` from successful construction until the
/// surface is released, `Closed` afterwards. There is no way back.
#[derive(Debug, Clone, Copy, PartialEq, Eq, Structural)]
pub enum Lifecycle {
    Running,
    Closed,
}

/// Owns one native rendering surface for its lifetime, together with the
/// virtual-content table backing the custom scheme and the table of
/// dispatched work in flight.
pub struct WebView<'a> {
    state: Lifecycle,
    surface: u64,
    resolver: ContentResolver<'a>,
    callbacks: CallbackTable<Command>,
}

impl<'a> WebView<'a> {
    /// Where the facade stands in its lifecycle.
    pub closed spec fn lifecycle(self) -> Lifecycle {
        self.state
    }

    /// The opaque identity of the surface this facade owns.
    pub closed spec fn surface_id(self) -> u64 {
        self.surface
    }

    /// The virtual-content table the custom scheme is answered from.
    pub closed spec fn files(self) -> Map<Seq<char>, Seq<u8>> {
        self.resolver.files()
    }

    /// The dispatched work accepted but not yet reclaimed, by token.
    pub closed spec fn pending(self) -> Map<u64, Command> {
        self.callbacks.pending()
    }

    /// The token the next accepted posting will receive.
    pub closed spec fn pending_next(self) -> u64 {
        self.callbacks.next_token()
    }

    /// The facade's internal invariant: its dispatch table is well-formed.
    pub closed spec fn wf(self) -> bool {
        self.callbacks.wf()
    }

    /// Constructs a facade around exactly one native surface, bound to
    /// exactly one kind of initial content.
    ///
    /// Every string argument — the title and the content's string — is
    /// validated before any native outcome is consulted: an embedded null
    /// byte fails with `InvalidArgument`, and for such arguments no native
    /// call is made at all. Only then does the creation outcome decide, then
    /// the initial navigation; a native failure surfaces as `Runtime`, and on
    /// any failure after creation the surface does not reach the caller, so
    /// no handle leaks from a partly failed construction. `size` and
    /// `resizable` parameterize the native window only.
    ///
    /// On success the facade is `Running`, serves the embedded directory's
    /// files when the content is `Dir` (and nothing otherwise), and has no
    /// dispatched work in flight.
    #[allow(unused_variables)]
    pub fn new(
        title: &str,
        content: Content<'a>,
        size: (i32, i32),
        resizable: bool,
        create: NativeCreate,
        navigate: NativeStatus,
    ) -> (r: Result<WebView<'a>, Error>)
        ensures
            has_nul(title@) || has_nul(spec_content_str(content)) ==> r == Err::<
                WebView<'a>,
                Error,
            >(Error::InvalidArgument),
            !has_nul(title@) && !has_nul(spec_content_str(content)) ==> (
            create matches NativeCreate::Failed(code, message) ==> r == Err::<WebView<'a>, Error>(
                Error::Runtime(code, message),
            )),
            !has_nul(title@) && !has_nul(spec_content_str(content)) && create is Created ==> (
            navigate matches NativeStatus::Failed(code, message) ==> r == Err::<
                WebView<'a>,
                Error,
            >(Error::Runtime(code, message))),
            r is Ok <==> !has_nul(title@) && !has_nul(spec_content_str(content))
                && create is Created && navigate is Completed,
            r matches Ok(w) ==> {
                &&& w.wf()
                &&& w.lifecycle() is Running
                &&& create matches NativeCreate::Created(id) && w.surface_id() == id
                &&& w.files() == spec_content_files(content)
                &&& w.pending() == Map::<u64, Command>::empty()
                &&& w.pending_next() == 0
            },
    {
        if contains_nul(title) {
            return Err(Error::InvalidArgument);
        }
        let resolver = match content {
            Content::Html(html) => {
                if contains_nul(html.as_str()) {
                    return Err(Error::InvalidArgument);
                }
                ContentResolver::empty()
            },
            Content::Url(url) => {
                if contains_nul(url.as_str()) {
                    return Err(Error::InvalidArgument);
                }
                ContentResolver::empty()
            },
            Content::Dir(dir, source) => {
                if contains_nul(source.as_str()) {
                    return Err(Error::InvalidArgument);
                }
                ContentResolver::from_dir(dir)
            },
        };
        let surface = match create {
            NativeCreate::Created(id) => id,
            NativeCreate::Failed(code, message) => {
                return Err(Error::Runtime(code, message));
            },
        };
        match navigate {
            NativeStatus::Completed => Ok(
                WebView { state: Lifecycle::Running, surface, resolver, callbacks: CallbackTable::new() },
            ),
            NativeStatus::Failed(code, message) => Err(Error::Runtime(code, message)),
        }
    }

    /// Submits script text for synchronous execution on the top-level page
    /// and returns the script's string result. UI-thread only: worker
    /// threads must post through a dispatcher instead.
    ///
    /// A script with an embedded null byte fails with `InvalidArgument`
    /// whatever the native reply says — nothing is handed to the native
    /// layer for such a script. Otherwise the native reply decides: its
    /// value is returned, or its failure surfaces as `Runtime`. The facade
    /// is unchanged on every path.
    pub fn eval_script(&mut self, script: &str, reply: NativeReply) -> (r: Result<String, Error>)
        requires
            old(self).wf(),
            old(self).lifecycle() is Running,
        ensures
            *final(self) == *old(self),
            r is Ok <==> !has_nul(script@) && reply is Value,
            has_nul(script@) ==> r == Err::<String, Error>(Error::InvalidArgument),
            !has_nul(script@) ==> (reply matches NativeReply::Value(value) ==> r == Ok::<
                String,
                Error,
            >(value)),
            !has_nul(script@) ==> (reply matches NativeReply::Failed(code, message) ==> r
                == Err::<String, Error>(Error::Runtime(code, message))),
    {
        if contains_nul(script) {
            return Err(Error::InvalidArgument);
        }
        match reply {
            NativeReply::Value(value) => Ok(value),
            NativeReply::Failed(code, message) => Err(Error::Runtime(code, message)),
        }
    }

    /// Applies a style string to the currently loaded document. UI-thread
    /// only.
    ///
    /// Policy for a call before any navigation has completed: the facade
    /// does not queue the style; if the native layer reports that it could
    /// not apply it yet, that failure surfaces as `Runtime`, the facade is
    /// unchanged, and it remains usable — a later call may succeed.
    ///
    /// A style string with an embedded null byte fails with
    /// `InvalidArgument` whatever the native status says — nothing is handed
    /// to the native layer for it.
    pub fn inject_css(&mut self, css: &str, status: NativeStatus) -> (r: Result<(), Error>)
        requires
            old(self).wf(),
            old(self).lifecycle() is Running,
        ensures
            *final(self) == *old(self),
            r is Ok <==> !has_nul(css@) && status is Completed,
            has_nul(css@) ==> r == Err::<(), Error>(Error::InvalidArgument),
            !has_nul(css@) ==> (status matches NativeStatus::Failed(code, message) ==> r
                == Err::<(), Error>(Error::Runtime(code, message))),
    {
        if contains_nul(css) {
            return Err(Error::InvalidArgument);
        }
        match status {
            NativeStatus::Completed => Ok(()),
            NativeStatus::Failed(code, message) => Err(Error::Runtime(code, message)),
        }
    }

    /// Whether the facade is still running (its surface not yet released).
    pub fn is_running(&self) -> (r: bool)
        ensures
            r == (self.lifecycle() is Running),
    {
        match self.state {
            Lifecycle::Running => true,
            Lifecycle::Closed => false,
        }
    }

    /// How many units of dispatched work are in flight on this facade.
    pub fn pending_count(&self) -> (r: usize)
        ensures
            r == self.pending().len(),
    {
        self.callbacks.len()
    }

    /// Returns a dispatcher bound to this facade's surface identity. May be
    /// called any number of times; the handles share the identity and are
    /// safe to move to other threads, while the surface itself stays with
    /// the facade.
    pub fn dispatcher(&mut self) -> (r: Dispatcher)
        ensures
            *final(self) == *old(self),
            r.for_surface() == old(self).surface_id(),
    {
        Dispatcher { surface: self.surface }
    }

    /// Releases the surface. The release itself happens exactly once over
    /// the facade's lifetime — only on the transition out of `Running` — and
    /// the return value reports whether this call was that transition.
    /// Everything else the facade holds is untouched.
    pub fn close(&mut self) -> (released: bool)
        ensures
            final(self).lifecycle() is Closed,
            released == (old(self).lifecycle() is Running),
            final(self).surface_id() == old(self).surface_id(),
            final(self).files() == old(self).files(),
            final(self).pending() == old(self).pending(),
            final(self).pending_next() == old(self).pending_next(),
            final(self).wf() == old(self).wf(),
    {
        let released = self.is_running();
        self.state = Lifecycle::Closed;
        released
    }
}

/// A thread-safe handle for posting work onto the UI thread. It carries only
/// the surface identity — never the surface itself — so clones may be handed
/// to worker threads freely; the native layer serializes everything they
/// post onto the single UI thread.
#[derive(Debug, Clone, Copy, PartialEq, Eq)]
pub struct Dispatcher {
    surface: u64,
}

impl Dispatcher {
    /// The identity of the surface this handle posts to.
    pub closed spec fn for_surface(self) -> u64 {
        self.surface
    }

    /// Posts one unit of work for later execution on the UI thread; the call
    /// itself never runs the work. The native layer serializes accepted
    /// postings onto the UI thread, where each is reclaimed and executed to
    /// completion before the next; the facade's table holds that serialized
    /// in-flight work, so posting is stated against the facade.
    ///
    /// If the native post is accepted, ownership of the work moves into the
    /// table under a fresh token, which the native boundary later hands back
    /// to `webview_dispatch_callback`. If the native post fails, ownership
    /// was never transferred: the work stays on this side and is released
    /// here, and the failure surfaces as `Runtime`. Nothing else about the
    /// facade changes either way.
    pub fn dispatch(&self, webview: &mut WebView, command: Command, post: NativeStatus) -> (r:
        Result<u64, Error>)
        requires
            old(webview).wf(),
            old(webview).lifecycle() is Running,
            self.for_surface() == old(webview).surface_id(),
            old(webview).pending_next() < u64::MAX,
        ensures
            final(webview).wf(),
            final(webview).lifecycle() == old(webview).lifecycle(),
            final(webview).surface_id() == old(webview).surface_id(),
            final(webview).files() == old(webview).files(),
            r is Ok <==> post is Completed,
            post is Completed ==> (r matches Ok(token) && {
                &&& token == old(webview).pending_next()
                &&& !old(webview).pending().contains_key(token)
                &&& final(webview).pending() == old(webview).pending().insert(token, command)
                &&& final(webview).pending_next() == old(webview).pending_next() + 1
            }),
            post matches NativeStatus::Failed(code, message) ==> ({
                &&& r == Err::<u64, Error>(Error::Runtime(code, message))
                &&& final(webview).pending() == old(webview).pending()
                &&& final(webview).pending_next() == old(webview).pending_next()
            }),
    {
        match post {
            NativeStatus::Completed => Ok(webview.callbacks.register(command)),
            NativeStatus::Failed(code, message) => Err(Error::Runtime(code, message)),
        }
    }
}

/// The reverse call from the native boundary: the UI thread, woken for a
/// posted token, reclaims the work registered under it — exactly once. The
/// first call for a token returns the work and removes the entry; any later
/// call for the same token finds nothing. The caller (the UI loop) executes
/// the returned work.
pub fn webview_dispatch_callback(webview: &mut WebView, token: u64) -> (r: Option<Command>)
    requires
        old(webview).wf(),
    ensures
        final(webview).wf(),
        final(webview).lifecycle() == old(webview).lifecycle(),
        final(webview).surface_id() == old(webview).surface_id(),
        final(webview).files() == old(webview).files(),
        final(webview).pending_next() == old(webview).pending_next(),
        r is Some <==> old(webview).pending().contains_key(token),
        r matches Some(command) ==> command == old(webview).pending()[token],
        final(webview).pending() == old(webview).pending().remove(token),
{
    webview.callbacks.reclaim(token)
}

/// The custom-scheme request entry point: the native layer asks the facade
/// for embedded content by path. Returns the entry's bytes if and only if
/// the path, with leading separators stripped, exactly matches an embedded
/// entry; a miss — including every request on a facade whose content is not
/// a directory — returns nothing. Callers treat a miss and empty content
/// alike: no content available.
pub fn webview_get_content(webview: &WebView, source: &str) -> (r: Option<Vec<u8>>)
    ensures
        r is Some <==> webview.files().contains_key(spec_strip_leading_separators(source@)),
        r matches Some(bytes) ==> bytes@ == webview.files()[spec_strip_leading_separators(
            source@,
        )],
{
    webview.resolver.resolve(source)
}

} // verus!
