//! The bridge's startup configuration: one port picked for the process's
//! lifetime, the fixed origin allowlist, and the script injected into the
//! view so its outgoing messages speak this bridge's protocol.

use vstd::prelude::*;

use crate::origin::OriginAllowlist;
use crate::text::{dec_string, spec_dec_digits};

verus! {

/// Relies on `portpicker::pick_unused_port`: probes for a local port free
/// on both TCP and UDP and returns it, or `None` when none could be
/// found. Which port comes back depends on the machine's state, so
/// nothing more is assumed of the result.
pub assume_specification[ portpicker::pick_unused_port ]() -> Option<portpicker::Port>;

/// Opening piece of the injected script, up to the first place the
/// bridge's port is spliced in.
pub const SCRIPT_HEAD: &'static str = "
      Object.defineProperty(window, '__TAURI_POST_MESSAGE__', {
        value: (message) => {
          const ws = new WebSocket('ws://localhost:";

/// Middle piece of the injected script, between the two places the
/// bridge's port is spliced in: the invocation override's message
/// handlers, and the opening of the event-subscription primitive.
pub const SCRIPT_MID: &'static str = "', \"json\");
          const rpcMethodId = message.callback + message.error;

          ws.onmessage = function (event) {
            let rpcMessage = JSON.parse(event.data);

            if (rpcMessage.id === rpcMethodId) {
              if ([\"Invalid\", \"Error\"].includes(rpcMessage.result.status)) {
                window[`_${message.error}`](rpcMessage.result.data);
                ws.close();
              }

              if (rpcMessage.result.status === \"Success\") {
                window[`_${message.callback}`](rpcMessage.result.data);
                ws.close();
              }
            }
          };

        ws.onerror = (e) => {
          ws.close();
          window[`_${message.error}`](e)
        };


        ws.onopen = () => {
          ws.send(
            JSON.stringify({
              jsonrpc: \"2.0\",
              id: rpcMethodId,
              method: \"invoke\",
              params: {window_label: window.__TAURI_METADATA__.__currentWindow.label, payload: JSON.stringify(message) },
            })
          );
        };

        }
      });


      Object.defineProperty(window, 'AwesomeEvent', {
        value: {
          listen: (event_name, callback) => {
            const ws = new WebSocket('ws://localhost:";

/// Closing piece of the injected script: the event subscription's filter
/// and the unsubscribe function it hands back.
pub const SCRIPT_TAIL: &'static str = "', \"json\");
            ws.onmessage = function (event) {
              let message = JSON.parse(event.data);

              if (message.event_name && message.event_name === event_name && [null, window.__TAURI_METADATA__.__currentWindow.label].includes(message.window_label)) {
                callback(message.payload);
              }
            };

            ws.onerror = (e) => {
              ws.close();
            };

            return () => ws.close();
          }
        }
      })
    ";

/// The whole script injected into a view of a bridge listening on `port`:
/// the three fixed pieces with the port's decimal rendering spliced in at
/// both socket openings.
pub open spec fn spec_init_script(port: u16) -> Seq<char> {
    SCRIPT_HEAD@ + spec_dec_digits(port as nat) + SCRIPT_MID@ + spec_dec_digits(port as nat)
        + SCRIPT_TAIL@
}

/// The address the broadcast listener binds, `0.0.0.0:<port>`.
pub open spec fn spec_listen_address(port: u16) -> Seq<char> {
    "0.0.0.0:"@ + spec_dec_digits(port as nat)
}

/// The bridge's process-wide configuration: the one port its listener
/// binds and its initialization script names, and the origin allowlist
/// consulted on every inbound connection. Both are fixed at construction.
pub struct AwesomeRpc {
    pub port: u16,
    pub allowed_origins: OriginAllowlist,
}

impl AwesomeRpc {
    /// Builds the configuration around an already chosen port.
    pub fn with_port(port: u16, allowed_origins: Vec<String>) -> (r: Self)
        ensures
            r.port == port,
            r.allowed_origins@ == allowed_origins.deep_view(),
    {
        AwesomeRpc { port, allowed_origins: OriginAllowlist::new(allowed_origins) }
    }

    /// Picks an unused local port and builds the configuration around it.
    /// Returns `None` when no port could be found — for the bridge that is
    /// a fatal startup error, not a per-request one, and the caller aborts
    /// startup. Whatever port was found, the allowlist is the one given.
    pub fn new(allowed_origins: Vec<String>) -> (r: Option<Self>)
        ensures
            r matches Some(rpc) ==> rpc.allowed_origins@ == allowed_origins.deep_view(),
    {
        match portpicker::pick_unused_port() {
            Some(port) => Some(Self::with_port(port, allowed_origins)),
            None => None,
        }
    }

    /// The script injected into the view before any of its own code runs:
    /// it overrides the view's outgoing-message primitive to open a socket
    /// to this bridge's port and to dispatch on the correlated reply, and
    /// defines the event-subscription primitive that filters broadcast
    /// envelopes by event name and target view.
    pub fn initialization_script(&self) -> (r: String)
        ensures
            r@ == spec_init_script(self.port),
    {
        let digits = dec_string(self.port as u64);
        let mut out = String::new();
        out.append(SCRIPT_HEAD);
        out.append(digits.as_str());
        out.append(SCRIPT_MID);
        out.append(digits.as_str());
        out.append(SCRIPT_TAIL);
        assert(out@ =~= spec_init_script(self.port));
        out
    }

    /// The socket address the broadcast listener binds.
    pub fn listen_address(&self) -> (r: String)
        ensures
            r@ == spec_listen_address(self.port),
    {
        let mut out = String::new();
        out.append("0.0.0.0:");
        let digits = dec_string(self.port as u64);
        out.append(digits.as_str());
        assert(out@ =~= spec_listen_address(self.port));
        out
    }
}

} // verus!
