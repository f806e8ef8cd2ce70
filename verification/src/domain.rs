use vstd::prelude::*;
use vstd::string::StringExecFns;

use crate::universal::{
    append_payload, uvs_text, ConfErrReason, ErrorPayload, UvsReason,
};

verus! {

/// The capability every module-specific reason type must provide: it renders
/// to text and it can absorb a universal reason (typically through a
/// catch-all case that stores the `UvsReason` verbatim).
pub trait DomainReason: Sized {
    /// The rendered reason text. Verified implementations override this;
    /// an implementation outside verified code leaves it unconstrained.
    open spec fn text_spec(&self) -> Seq<char> {
        arbitrary()
    }

    /// Render the reason for display.
    fn text(&self) -> (r: String)
        ensures
            r@ == self.text_spec(),
    ;

    /// The image of lifting a universal reason into this type. Verified
    /// implementations override this.
    open spec fn from_uvs_spec(u: UvsReason) -> Self {
        arbitrary()
    }

    /// Lift a universal reason into this domain reason type.
    fn from_uvs(u: UvsReason) -> (r: Self)
        ensures
            r == Self::from_uvs_spec(u),
    ;
}

impl DomainReason for UvsReason {
    open spec fn text_spec(&self) -> Seq<char> {
        uvs_text(self@)
    }

    fn text(&self) -> (r: String) {
        let mut s = String::new();
        match self {
            UvsReason::ValidationError(p) => {
                s.append("validation error << ");
                append_payload(&mut s, p);
            },
            UvsReason::BusinessError(p) => {
                s.append("business logic error << ");
                append_payload(&mut s, p);
            },
            UvsReason::NotFoundError(p) => {
                s.append("not found error << ");
                append_payload(&mut s, p);
            },
            UvsReason::PermissionError(p) => {
                s.append("permission error << ");
                append_payload(&mut s, p);
            },
            UvsReason::DataError(p, _) => {
                s.append("data error << ");
                append_payload(&mut s, p);
            },
            UvsReason::SystemError(p) => {
                s.append("system error << ");
                append_payload(&mut s, p);
            },
            UvsReason::NetworkError(p) => {
                s.append("network error << ");
                append_payload(&mut s, p);
            },
            UvsReason::ResourceError(p) => {
                s.append("resource error << ");
                append_payload(&mut s, p);
            },
            UvsReason::TimeoutError(p) => {
                s.append("timeout error << ");
                append_payload(&mut s, p);
            },
            UvsReason::ConfigError(c) => {
                s.append("configuration error << ");
                match c {
                    ConfErrReason::Core(m) => {
                        s.append("core config > ");
                        s.append(m.as_str());
                    },
                    ConfErrReason::Feature(m) => {
                        s.append("feature config error > ");
                        s.append(m.as_str());
                    },
                    ConfErrReason::Dynamic(m) => {
                        s.append("dynamic config error > ");
                        s.append(m.as_str());
                    },
                }
                assert(s@ =~= uvs_text(self@));
            },
            UvsReason::ExternalError(p) => {
                s.append("external service error << ");
                append_payload(&mut s, p);
            },
            UvsReason::LogicError(p) => {
                s.append("BUG :logic error << ");
                append_payload(&mut s, p);
            },
        }
        assert(s@ =~= uvs_text(self@));
        s
    }

    open spec fn from_uvs_spec(u: UvsReason) -> Self {
        u
    }

    fn from_uvs(u: UvsReason) -> (r: Self) {
        u
    }
}

/// The trivial domain reason: it adds no module-specific cases of its own.
#[derive(Debug, Clone, PartialEq)]
pub enum NullReason {
    Null,
    Uvs(UvsReason),
}

impl DomainReason for NullReason {
    open spec fn text_spec(&self) -> Seq<char> {
        match self {
            NullReason::Null => "null"@,
            NullReason::Uvs(u) => uvs_text(u@),
        }
    }

    fn text(&self) -> (r: String) {
        match self {
            NullReason::Null => {
                let mut s = String::new();
                s.append("null");
                assert(s@ =~= "null"@);
                s
            },
            NullReason::Uvs(u) => u.text(),
        }
    }

    open spec fn from_uvs_spec(u: UvsReason) -> Self {
        NullReason::Uvs(u)
    }

    fn from_uvs(u: UvsReason) -> (r: Self) {
        NullReason::Uvs(u)
    }
}

impl crate::reason::ErrorCode for NullReason {
    open spec fn code_spec(&self) -> int {
        match self {
            NullReason::Null => 500,
            NullReason::Uvs(u) => crate::universal::code_of(u@),
        }
    }

    fn error_code(&self) -> (c: i32) {
        match self {
            NullReason::Null => 500,
            NullReason::Uvs(u) => u.error_code(),
        }
    }
}

impl From<UvsReason> for NullReason {
    fn from(u: UvsReason) -> (r: Self) {
        NullReason::Uvs(u)
    }
}

impl vstd::std_specs::convert::FromSpecImpl<UvsReason> for NullReason {
    open spec fn obeys_from_spec() -> bool {
        true
    }

    open spec fn from_spec(u: UvsReason) -> Self {
        NullReason::Uvs(u)
    }
}

} // verus!
