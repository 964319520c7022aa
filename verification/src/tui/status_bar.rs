//! The one-line persistent status bar text.

use vstd::prelude::*;

use crate::text::{spec_dec, u64_to_dec_string};

verus! {

/// Data for the status bar, decoupled from the log type.
#[derive(Debug, Clone, PartialEq)]
pub struct StatusBarContext {
    /// The active station callsign; empty means no active log.
    pub callsign: String,
    /// The active park reference, if any.
    pub park_ref: Option<String>,
    /// Today's unique contact count.
    pub qso_count: usize,
    /// Whether the log has reached its activation threshold.
    pub is_activated: bool,
}

impl StatusBarContext {
    /// The bar's text: nothing without an active log; otherwise the
    /// bracketed park (when set), the callsign, and either `ACTIVATED` or
    /// the running count (`7/10 QSOs` with a park, `5 QSOs` without).
    pub open spec fn spec_line(self) -> Seq<char> {
        if self.callsign@.len() == 0 {
            Seq::<char>::empty()
        } else {
            (match self.park_ref {
                Some(p) => "["@ + p@ + "] "@,
                None => Seq::<char>::empty(),
            }) + self.callsign@ + "  "@ + (if self.is_activated {
                "ACTIVATED"@
            } else if self.park_ref is Some {
                spec_dec(self.qso_count as nat) + "/10 QSOs"@
            } else {
                spec_dec(self.qso_count as nat) + " QSOs"@
            })
        }
    }

    /// Renders the status line.
    pub fn line(&self) -> (r: String)
        ensures
            r@ == self.spec_line(),
    {
        if self.callsign.as_str().is_empty() {
            return String::new();
        }
        let mut r = String::new();
        if let Some(p) = &self.park_ref {
            r.append("[");
            r.append(p.as_str());
            r.append("] ");
        }
        r.append(self.callsign.as_str());
        r.append("  ");
        if self.is_activated {
            r.append("ACTIVATED");
        } else {
            let n = u64_to_dec_string(self.qso_count as u64);
            r.append(n.as_str());
            if self.park_ref.is_some() {
                r.append("/10 QSOs");
            } else {
                r.append(" QSOs");
            }
        }
        proof {
            assert(r@ =~= self.spec_line());
        }
        r
    }
}

impl Default for StatusBarContext {
    /// An empty context: no active log.
    fn default() -> (r: Self)
        ensures
            r.callsign@.len() == 0,
            r.park_ref is None,
            r.qso_count == 0,
            r.is_activated == false,
    {
        StatusBarContext { callsign: String::new(), park_ref: None, qso_count: 0, is_activated: false }
    }
}

} // verus!
