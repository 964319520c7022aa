//! A single logged contact.

use vstd::prelude::*;

use crate::model::band::Band;
use crate::model::mode::Mode;
use crate::model::validation::{
    ValidationError, spec_valid_callsign, spec_valid_park_ref, validate_callsign,
    validate_park_ref,
};
use crate::time::Timestamp;

verus! {

/// A single contact (QSO) record.
#[derive(Debug, Clone, PartialEq)]
pub struct Qso {
    pub their_call: String,
    pub rst_sent: String,
    pub rst_rcvd: String,
    pub band: Band,
    pub mode: Mode,
    pub timestamp: Timestamp,
    pub comments: String,
    /// The other station's park reference, for park-to-park contacts.
    pub their_park: Option<String>,
    /// The other station's contest class, for Field Day style exchanges.
    pub their_class: Option<String>,
    /// The other station's contest section, for Field Day style exchanges.
    pub their_section: Option<String>,
}

/// The character-level contents of a contact record.
#[verifier::ext_equal]
pub struct QsoView {
    pub their_call: Seq<char>,
    pub rst_sent: Seq<char>,
    pub rst_rcvd: Seq<char>,
    pub band: Band,
    pub mode: Mode,
    pub timestamp: Timestamp,
    pub comments: Seq<char>,
    pub their_park: Option<Seq<char>>,
    pub their_class: Option<Seq<char>>,
    pub their_section: Option<Seq<char>>,
}

impl View for Qso {
    type V = QsoView;

    open spec fn view(&self) -> QsoView {
        QsoView {
            their_call: self.their_call@,
            rst_sent: self.rst_sent@,
            rst_rcvd: self.rst_rcvd@,
            band: self.band,
            mode: self.mode,
            timestamp: self.timestamp,
            comments: self.comments@,
            their_park: match self.their_park {
                Some(ref p) => Some(p@),
                None => None,
            },
            their_class: match self.their_class {
                Some(ref c) => Some(c@),
                None => None,
            },
            their_section: match self.their_section {
                Some(ref s) => Some(s@),
                None => None,
            },
        }
    }
}

impl Qso {
    /// The record invariant: the callsign is valid, the optional park
    /// reference is valid when present, and the timestamp is in range.
    pub open spec fn wf(self) -> bool {
        &&& spec_valid_callsign(self.their_call@)
        &&& (self.their_park matches Some(p) ==> spec_valid_park_ref(p@))
        &&& self.timestamp.wf()
    }

    /// Creates a new QSO, validating the callsign and the optional park
    /// reference. Returns the first validation failure otherwise.
    pub fn new(
        their_call: String,
        rst_sent: String,
        rst_rcvd: String,
        band: Band,
        mode: Mode,
        timestamp: Timestamp,
        comments: String,
        their_park: Option<String>,
        their_class: Option<String>,
        their_section: Option<String>,
    ) -> (r: Result<Qso, ValidationError>)
        requires
            timestamp.wf(),
        ensures
            r is Ok <==> spec_valid_callsign(their_call@) && (their_park matches Some(p)
                ==> spec_valid_park_ref(p@)),
            r matches Ok(q) ==> {
                &&& q.wf()
                &&& q.their_call@ == their_call@
                &&& q.rst_sent@ == rst_sent@
                &&& q.rst_rcvd@ == rst_rcvd@
                &&& q.band == band
                &&& q.mode == mode
                &&& q.timestamp == timestamp
                &&& q.comments@ == comments@
                &&& q@.their_park == match their_park {
                    Some(p) => Some::<Seq<char>>(p@),
                    None => None::<Seq<char>>,
                }
                &&& q@.their_class == match their_class {
                    Some(c) => Some::<Seq<char>>(c@),
                    None => None::<Seq<char>>,
                }
                &&& q@.their_section == match their_section {
                    Some(s) => Some::<Seq<char>>(s@),
                    None => None::<Seq<char>>,
                }
            },
            !spec_valid_callsign(their_call@) ==> (r matches Err(e) && (e
                == ValidationError::EmptyCallsign || e matches ValidationError::InvalidCallsign(
                _,
            ))),
            spec_valid_callsign(their_call@) && (their_park matches Some(p)
                && !spec_valid_park_ref(p@)) ==> (r matches Err(e) && e matches
                ValidationError::InvalidParkRef(t) && Some(t@) == their_park.deep_view()),
    {
        if let Err(e) = validate_callsign(their_call.as_str()) {
            return Err(e);
        }
        if let Some(ref park) = their_park {
            if let Err(e) = validate_park_ref(park.as_str()) {
                return Err(e);
            }
        }
        Ok(
            Qso {
                their_call,
                rst_sent,
                rst_rcvd,
                band,
                mode,
                timestamp,
                comments,
                their_park,
                their_class,
                their_section,
            },
        )
    }
}

} // verus!
