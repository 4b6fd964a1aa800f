//! The link state inspector.
//!
//! A probe of the target path is reduced to a [`TargetStatus`]: whether the
//! path exists once one level of symbolic indirection is followed, and, when
//! it is a symbolic link, where that link points. [`classify`] turns a status
//! into the closed [`LinkState`] classification that governs everything the
//! orchestrators do. The status must be re-read before every operation,
//! never cached: the filesystem can be in any state left over from an
//! earlier interrupted run.

use vstd::prelude::*;
use vstd::string::*;

use crate::paths::{lies_under, path_lies_under};

verus! {

/// What one probe of the target path saw.
///
/// `exists` follows symbolic links: it is `false` both for a missing path
/// and for a dangling link. `link_dest` is the destination read from the
/// link, or `None` when the target is not a symbolic link at all.
#[derive(Debug, Clone, PartialEq)]
pub struct TargetStatus {
    pub exists: bool,
    pub link_dest: Option<String>,
}

/// The mathematical form of a [`TargetStatus`].
pub struct TargetStatusV {
    pub exists: bool,
    pub link_dest: Option<Seq<char>>,
}

impl View for TargetStatus {
    type V = TargetStatusV;

    open spec fn view(&self) -> TargetStatusV {
        TargetStatusV {
            exists: self.exists,
            link_dest: match self.link_dest {
                Option::Some(d) => Option::Some(d@),
                Option::None => Option::None,
            },
        }
    }
}

/// The relationship between the target path and the volatile storage root.
#[derive(Debug, Clone, PartialEq)]
pub enum LinkState {
    /// The target does not exist, or is a plain directory or file.
    Unlinked,
    /// The target is a symbolic link into the volatile root and the resolved
    /// path exists; the payload is the resolved backing-store path.
    LinkedToVolatile(String),
    /// The target is a symbolic link into the volatile root, but the
    /// resolved path no longer exists.
    StaleVolatileLink,
    /// The target is a symbolic link resolving outside the volatile root.
    LinkedElsewhere,
}

/// The mathematical form of a [`LinkState`].
pub enum LinkStateV {
    Unlinked,
    LinkedToVolatile(Seq<char>),
    StaleVolatileLink,
    LinkedElsewhere,
}

impl View for LinkState {
    type V = LinkStateV;

    open spec fn view(&self) -> LinkStateV {
        match self {
            LinkState::Unlinked => LinkStateV::Unlinked,
            LinkState::LinkedToVolatile(d) => LinkStateV::LinkedToVolatile(d@),
            LinkState::StaleVolatileLink => LinkStateV::StaleVolatileLink,
            LinkState::LinkedElsewhere => LinkStateV::LinkedElsewhere,
        }
    }
}

/// The classification a status falls under, given the volatile root.
pub open spec fn link_state_of(st: TargetStatusV, root: Seq<char>) -> LinkStateV {
    match st.link_dest {
        Option::None => LinkStateV::Unlinked,
        Option::Some(d) => if lies_under(root, d) {
            if st.exists {
                LinkStateV::LinkedToVolatile(d)
            } else {
                LinkStateV::StaleVolatileLink
            }
        } else {
            LinkStateV::LinkedElsewhere
        },
    }
}

/// Classifies the current relationship between the target path and the
/// volatile storage root, resolving one level of symbolic indirection.
pub fn classify(status: &TargetStatus, root: &str) -> (r: LinkState)
    ensures
        r@ == link_state_of(status@, root@),
{
    match &status.link_dest {
        Option::None => LinkState::Unlinked,
        Option::Some(d) => {
            if path_lies_under(root, d.as_str()) {
                if status.exists {
                    LinkState::LinkedToVolatile(d.clone())
                } else {
                    LinkState::StaleVolatileLink
                }
            } else {
                LinkState::LinkedElsewhere
            }
        },
    }
}

} // verus!
