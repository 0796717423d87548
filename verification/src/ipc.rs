//! Messages between the browser and the JavaScript side of a webview, and
//! the queue that buffers them until the next frame.

use vstd::prelude::*;

verus! {

/// Messages sent between the browser and the webview's JavaScript context.
/// On the wire they are JSON objects `{"type": ..., "payload": ...}`.
#[derive(Debug, Clone)]
pub enum IpcMessage {
    /// The webview wants to navigate to a new URL.
    Navigate { url: String },
    /// The page title changed.
    TitleChanged { title: String },
    /// A page load started.
    LoadStart,
    /// A page load completed.
    LoadEnd,
    /// The page favicon changed.
    FaviconChanged { url: String },
}

/// The script a webview evaluates to set up its side of the bridge: it
/// reports title changes and exposes `window.__namimado.navigate(url)`.
pub const JS_INIT_SCRIPT: &'static str = r#"
        (function() {
            'use strict';

            // Title change observer
            const titleObserver = new MutationObserver(function() {
                window.ipc.postMessage(JSON.stringify({
                    type: "TitleChanged",
                    payload: { title: document.title }
                }));
            });

            // Observe title element changes
            const titleEl = document.querySelector('title');
            if (titleEl) {
                titleObserver.observe(titleEl, { childList: true, characterData: true, subtree: true });
            }

            // Report initial title
            if (document.title) {
                window.ipc.postMessage(JSON.stringify({
                    type: "TitleChanged",
                    payload: { title: document.title }
                }));
            }

            // Expose namimado IPC namespace
            window.__namimado = {
                navigate: function(url) {
                    window.ipc.postMessage(JSON.stringify({
                        type: "Navigate",
                        payload: { url: url }
                    }));
                }
            };
        })();
        "#;

/// Buffers the messages received from the webview until the next frame
/// drains them.
#[derive(Debug)]
pub struct IpcBridge {
    incoming: Vec<IpcMessage>,
}

impl View for IpcBridge {
    type V = Seq<IpcMessage>;

    /// The messages waiting, oldest first.
    closed spec fn view(&self) -> Seq<IpcMessage> {
        self.incoming@
    }
}

impl IpcBridge {
    /// A bridge with nothing queued.
    pub fn new() -> (b: IpcBridge)
        ensures
            b@ == Seq::<IpcMessage>::empty(),
    {
        IpcBridge { incoming: Vec::new() }
    }

    /// Queue a message received from the webview.
    pub fn push_incoming(&mut self, message: IpcMessage)
        ensures
            final(self)@ == old(self)@.push(message),
    {
        self.incoming.push(message);
    }

    /// Take every queued message, oldest first; the queue is left empty, so
    /// a second drain returns nothing.
    pub fn drain_incoming(&mut self) -> (res: Vec<IpcMessage>)
        ensures
            res@ == old(self)@,
            final(self)@ == Seq::<IpcMessage>::empty(),
    {
        let mut taken: Vec<IpcMessage> = Vec::new();
        std::mem::swap(&mut taken, &mut self.incoming);
        taken
    }

    /// The JavaScript the webview evaluates to set up its side of the
    /// bridge.
    pub fn js_init_script() -> (res: &'static str)
        ensures
            res@ == JS_INIT_SCRIPT@,
    {
        JS_INIT_SCRIPT
    }
}

impl Default for IpcBridge {
    fn default() -> (b: IpcBridge)
        ensures
            b@ == Seq::<IpcMessage>::empty(),
    {
        IpcBridge::new()
    }
}

} // verus!
