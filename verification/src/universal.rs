use vstd::prelude::*;
use vstd::string::StringExecFns;

use crate::domain::DomainReason;
use crate::reason::ErrorCode;

verus! {

/// Message payload carried by most `UvsReason` cases.
#[derive(Debug, Clone, PartialEq)]
pub struct ErrorPayload(pub String);

impl View for ErrorPayload {
    type V = Seq<char>;

    open spec fn view(&self) -> Seq<char> {
        self.0@
    }
}

impl ErrorPayload {
    pub fn new(s: &str) -> (r: Self)
        ensures
            r@ == s@,
    {
        ErrorPayload(s.to_owned())
    }

    pub fn as_str(&self) -> (r: &str)
        ensures
            r@ == self@,
    {
        self.0.as_str()
    }

    pub fn into_inner(self) -> (r: String)
        ensures
            r == self.0,
    {
        self.0
    }
}

/// Sub-classification of configuration failures.
#[derive(Debug, Clone, PartialEq)]
pub enum ConfErrReason {
    Core(String),
    Feature(String),
    Dynamic(String),
}

/// Spec-level model of a `ConfErrReason`.
pub enum ConfView {
    Core(Seq<char>),
    Feature(Seq<char>),
    Dynamic(Seq<char>),
}

impl View for ConfErrReason {
    type V = ConfView;

    open spec fn view(&self) -> ConfView {
        match self {
            ConfErrReason::Core(m) => ConfView::Core(m@),
            ConfErrReason::Feature(m) => ConfView::Feature(m@),
            ConfErrReason::Dynamic(m) => ConfView::Dynamic(m@),
        }
    }
}

/// Universal error reason: the closed, cross-module taxonomy of
/// infrastructure-level failure categories.
///
/// Codes are partitioned into ranges so consumers can bucket errors without
/// matching every case: 100-199 business-facing, 200-299 infrastructure,
/// 300-399 configuration and external services.
#[derive(Debug, Clone, PartialEq)]
pub enum UvsReason {
    /// Input validation failed (bad format, parameter checks).
    ValidationError(ErrorPayload),
    /// A business rule was violated.
    BusinessError(ErrorPayload),
    /// The requested resource does not exist.
    NotFoundError(ErrorPayload),
    /// Permission or authentication failure.
    PermissionError(ErrorPayload),
    /// Data processing failure, with an optional byte/record offset.
    DataError(ErrorPayload, Option<usize>),
    /// File system or OS-level failure.
    SystemError(ErrorPayload),
    /// Network connectivity or protocol failure.
    NetworkError(ErrorPayload),
    /// Resource exhaustion (memory, disk, quota).
    ResourceError(ErrorPayload),
    /// The operation timed out.
    TimeoutError(ErrorPayload),
    /// Configuration failure, sub-classified.
    ConfigError(ConfErrReason),
    /// A third-party service failed.
    ExternalError(ErrorPayload),
    /// An internal invariant was broken: a bug.
    LogicError(ErrorPayload),
}

/// Spec-level model of a `UvsReason`: the category together with the
/// payload text (and offset, for the data case).
pub enum ReasonView {
    Validation(Seq<char>),
    Business(Seq<char>),
    NotFound(Seq<char>),
    Permission(Seq<char>),
    Data(Seq<char>, Option<usize>),
    System(Seq<char>),
    Network(Seq<char>),
    Resource(Seq<char>),
    Timeout(Seq<char>),
    Config(ConfView),
    External(Seq<char>),
    Logic(Seq<char>),
}

impl View for UvsReason {
    type V = ReasonView;

    open spec fn view(&self) -> ReasonView {
        match self {
            UvsReason::ValidationError(p) => ReasonView::Validation(p@),
            UvsReason::BusinessError(p) => ReasonView::Business(p@),
            UvsReason::NotFoundError(p) => ReasonView::NotFound(p@),
            UvsReason::PermissionError(p) => ReasonView::Permission(p@),
            UvsReason::DataError(p, pos) => ReasonView::Data(p@, *pos),
            UvsReason::SystemError(p) => ReasonView::System(p@),
            UvsReason::NetworkError(p) => ReasonView::Network(p@),
            UvsReason::ResourceError(p) => ReasonView::Resource(p@),
            UvsReason::TimeoutError(p) => ReasonView::Timeout(p@),
            UvsReason::ConfigError(c) => ReasonView::Config(c@),
            UvsReason::ExternalError(p) => ReasonView::External(p@),
            UvsReason::LogicError(p) => ReasonView::Logic(p@),
        }
    }
}

/// The fixed, total, injective mapping from category to numeric code.
pub open spec fn code_of(r: ReasonView) -> int {
    match r {
        ReasonView::Validation(_) => 100,
        ReasonView::Business(_) => 101,
        ReasonView::NotFound(_) => 102,
        ReasonView::Permission(_) => 103,
        ReasonView::Logic(_) => 104,
        ReasonView::Data(_, _) => 200,
        ReasonView::System(_) => 201,
        ReasonView::Network(_) => 202,
        ReasonView::Resource(_) => 203,
        ReasonView::Timeout(_) => 204,
        ReasonView::Config(_) => 300,
        ReasonView::External(_) => 301,
    }
}

/// Whether a category describes a transient, environmental failure that a
/// caller may reasonably retry.
pub open spec fn retryable_of(r: ReasonView) -> bool {
    match r {
        ReasonView::Network(_) => true,
        ReasonView::Timeout(_) => true,
        ReasonView::Resource(_) => true,
        ReasonView::System(_) => true,
        ReasonView::External(_) => true,
        _ => false,
    }
}

/// Whether a category implies operator action and deserves high-severity
/// logging.
pub open spec fn severe_of(r: ReasonView) -> bool {
    match r {
        ReasonView::System(_) => true,
        ReasonView::Resource(_) => true,
        ReasonView::Config(_) => true,
        _ => false,
    }
}

/// Stable lowercase category identifier, for metrics and monitoring.
pub open spec fn category_of(r: ReasonView) -> Seq<char> {
    match r {
        ReasonView::Validation(_) => "validation"@,
        ReasonView::Business(_) => "business"@,
        ReasonView::NotFound(_) => "not_found"@,
        ReasonView::Permission(_) => "permission"@,
        ReasonView::Data(_, _) => "data"@,
        ReasonView::System(_) => "system"@,
        ReasonView::Network(_) => "network"@,
        ReasonView::Resource(_) => "resource"@,
        ReasonView::Timeout(_) => "timeout"@,
        ReasonView::Config(_) => "config"@,
        ReasonView::External(_) => "external"@,
        ReasonView::Logic(_) => "logic"@,
    }
}

/// Rendered form of a message payload: the text between double quotes.
pub open spec fn payload_text(m: Seq<char>) -> Seq<char> {
    "\""@ + m + "\""@
}

/// Rendered form of a configuration sub-reason.
pub open spec fn conf_text(c: ConfView) -> Seq<char> {
    match c {
        ConfView::Core(m) => "core config > "@ + m,
        ConfView::Feature(m) => "feature config error > "@ + m,
        ConfView::Dynamic(m) => "dynamic config error > "@ + m,
    }
}

/// Rendered form of a universal reason: a fixed category phrase followed by
/// the payload.
pub open spec fn uvs_text(r: ReasonView) -> Seq<char> {
    match r {
        ReasonView::Validation(m) => "validation error << "@ + payload_text(m),
        ReasonView::Business(m) => "business logic error << "@ + payload_text(m),
        ReasonView::NotFound(m) => "not found error << "@ + payload_text(m),
        ReasonView::Permission(m) => "permission error << "@ + payload_text(m),
        ReasonView::Data(m, _) => "data error << "@ + payload_text(m),
        ReasonView::System(m) => "system error << "@ + payload_text(m),
        ReasonView::Network(m) => "network error << "@ + payload_text(m),
        ReasonView::Resource(m) => "resource error << "@ + payload_text(m),
        ReasonView::Timeout(m) => "timeout error << "@ + payload_text(m),
        ReasonView::Config(c) => "configuration error << "@ + conf_text(c),
        ReasonView::External(m) => "external service error << "@ + payload_text(m),
        ReasonView::Logic(m) => "BUG :logic error << "@ + payload_text(m),
    }
}

/// Append the quoted payload text to `s`.
pub(crate) fn append_payload(s: &mut String, p: &ErrorPayload)
    ensures
        final(s)@ == old(s)@ + payload_text(p@),
{
    s.append("\"");
    s.append(p.0.as_str());
    s.append("\"");
    assert(final(s)@ =~= old(s)@ + payload_text(p@));
}

impl UvsReason {
    pub fn core_conf(msg: &str) -> (r: Self)
        ensures
            r@ == ReasonView::Config(ConfView::Core(msg@)),
    {
        UvsReason::ConfigError(ConfErrReason::Core(msg.to_owned()))
    }

    pub fn feature_conf(msg: &str) -> (r: Self)
        ensures
            r@ == ReasonView::Config(ConfView::Feature(msg@)),
    {
        UvsReason::ConfigError(ConfErrReason::Feature(msg.to_owned()))
    }

    pub fn dynamic_conf(msg: &str) -> (r: Self)
        ensures
            r@ == ReasonView::Config(ConfView::Dynamic(msg@)),
    {
        UvsReason::ConfigError(ConfErrReason::Dynamic(msg.to_owned()))
    }

    pub fn validation_error(msg: &str) -> (r: Self)
        ensures
            r@ == ReasonView::Validation(msg@),
    {
        UvsReason::ValidationError(ErrorPayload::new(msg))
    }

    pub fn business_error(msg: &str) -> (r: Self)
        ensures
            r@ == ReasonView::Business(msg@),
    {
        UvsReason::BusinessError(ErrorPayload::new(msg))
    }

    pub fn not_found_error(msg: &str) -> (r: Self)
        ensures
            r@ == ReasonView::NotFound(msg@),
    {
        UvsReason::NotFoundError(ErrorPayload::new(msg))
    }

    pub fn permission_error(msg: &str) -> (r: Self)
        ensures
            r@ == ReasonView::Permission(msg@),
    {
        UvsReason::PermissionError(ErrorPayload::new(msg))
    }

    pub fn data_error(msg: &str, pos: Option<usize>) -> (r: Self)
        ensures
            r@ == ReasonView::Data(msg@, pos),
    {
        UvsReason::DataError(ErrorPayload::new(msg), pos)
    }

    pub fn system_error(msg: &str) -> (r: Self)
        ensures
            r@ == ReasonView::System(msg@),
    {
        UvsReason::SystemError(ErrorPayload::new(msg))
    }

    pub fn network_error(msg: &str) -> (r: Self)
        ensures
            r@ == ReasonView::Network(msg@),
    {
        UvsReason::NetworkError(ErrorPayload::new(msg))
    }

    pub fn resource_error(msg: &str) -> (r: Self)
        ensures
            r@ == ReasonView::Resource(msg@),
    {
        UvsReason::ResourceError(ErrorPayload::new(msg))
    }

    pub fn timeout_error(msg: &str) -> (r: Self)
        ensures
            r@ == ReasonView::Timeout(msg@),
    {
        UvsReason::TimeoutError(ErrorPayload::new(msg))
    }

    pub fn external_error(msg: &str) -> (r: Self)
        ensures
            r@ == ReasonView::External(msg@),
    {
        UvsReason::ExternalError(ErrorPayload::new(msg))
    }

    pub fn logic_error(msg: &str) -> (r: Self)
        ensures
            r@ == ReasonView::Logic(msg@),
    {
        UvsReason::LogicError(ErrorPayload::new(msg))
    }

    /// Whether this error is worth retrying.
    pub fn is_retryable(&self) -> (r: bool)
        ensures
            r == retryable_of(self@),
    {
        match self {
            UvsReason::NetworkError(_) => true,
            UvsReason::TimeoutError(_) => true,
            UvsReason::ResourceError(_) => true,
            UvsReason::SystemError(_) => true,
            UvsReason::ExternalError(_) => true,
            _ => false,
        }
    }

    /// Whether this error should be logged with high severity.
    pub fn is_high_severity(&self) -> (r: bool)
        ensures
            r == severe_of(self@),
    {
        match self {
            UvsReason::SystemError(_) => true,
            UvsReason::ResourceError(_) => true,
            UvsReason::ConfigError(_) => true,
            _ => false,
        }
    }

    /// Stable category name for monitoring and metrics.
    pub fn category_name(&self) -> (r: &'static str)
        ensures
            r@ == category_of(self@),
    {
        match self {
            UvsReason::ValidationError(_) => "validation",
            UvsReason::BusinessError(_) => "business",
            UvsReason::NotFoundError(_) => "not_found",
            UvsReason::PermissionError(_) => "permission",
            UvsReason::DataError(_, _) => "data",
            UvsReason::SystemError(_) => "system",
            UvsReason::NetworkError(_) => "network",
            UvsReason::ResourceError(_) => "resource",
            UvsReason::TimeoutError(_) => "timeout",
            UvsReason::ConfigError(_) => "config",
            UvsReason::ExternalError(_) => "external",
            UvsReason::LogicError(_) => "logic",
        }
    }
}

/// Lift a configuration failure into any domain reason type.
pub trait UvsConfFrom<S>: Sized {
    /// The value `from_conf` returns.
    spec fn from_conf_spec(info: S) -> Self;

    fn from_conf(info: S) -> (r: Self)
        ensures
            r == Self::from_conf_spec(info),
    ;
}

impl<T: DomainReason> UvsConfFrom<String> for T {
    open spec fn from_conf_spec(info: String) -> T {
        T::from_uvs_spec(UvsReason::ConfigError(ConfErrReason::Core(info)))
    }

    fn from_conf(info: String) -> (r: T) {
        T::from_uvs(UvsReason::ConfigError(ConfErrReason::Core(info)))
    }
}

impl<T: DomainReason> UvsConfFrom<ConfErrReason> for T {
    open spec fn from_conf_spec(info: ConfErrReason) -> T {
        T::from_uvs_spec(UvsReason::ConfigError(info))
    }

    fn from_conf(info: ConfErrReason) -> (r: T) {
        T::from_uvs(UvsReason::ConfigError(info))
    }
}

/// Lift a data failure (with an optional offset) into any domain reason
/// type.
pub trait UvsDataFrom<S>: Sized {
    /// The value `from_data` returns.
    spec fn from_data_spec(info: S, pos: Option<usize>) -> Self;

    fn from_data(info: S, pos: Option<usize>) -> (r: Self)
        ensures
            r == Self::from_data_spec(info, pos),
    ;
}

impl<T: DomainReason> UvsDataFrom<String> for T {
    open spec fn from_data_spec(info: String, pos: Option<usize>) -> T {
        T::from_uvs_spec(UvsReason::DataError(ErrorPayload(info), pos))
    }

    fn from_data(info: String, pos: Option<usize>) -> (r: T) {
        T::from_uvs(UvsReason::DataError(ErrorPayload(info), pos))
    }
}

/// Lift a system failure into any domain reason type.
pub trait UvsSysFrom<S>: Sized {
    /// The value `from_sys` returns.
    spec fn from_sys_spec(info: S) -> Self;

    fn from_sys(info: S) -> (r: Self)
        ensures
            r == Self::from_sys_spec(info),
    ;
}

impl<T: DomainReason> UvsSysFrom<String> for T {
    open spec fn from_sys_spec(info: String) -> T {
        T::from_uvs_spec(UvsReason::SystemError(ErrorPayload(info)))
    }

    fn from_sys(info: String) -> (r: T) {
        T::from_uvs(UvsReason::SystemError(ErrorPayload(info)))
    }
}

/// Lift a business rule violation into any domain reason type.
pub trait UvsBizFrom<S>: Sized {
    /// The value `from_biz` returns.
    spec fn from_biz_spec(info: S) -> Self;

    fn from_biz(info: S) -> (r: Self)
        ensures
            r == Self::from_biz_spec(info),
    ;
}

impl<T: DomainReason> UvsBizFrom<String> for T {
    open spec fn from_biz_spec(info: String) -> T {
        T::from_uvs_spec(UvsReason::BusinessError(ErrorPayload(info)))
    }

    fn from_biz(info: String) -> (r: T) {
        T::from_uvs(UvsReason::BusinessError(ErrorPayload(info)))
    }
}

/// Lift an internal logic failure into any domain reason type.
pub trait UvsLogicFrom<S>: Sized {
    /// The value `from_logic` returns.
    spec fn from_logic_spec(info: S) -> Self;

    fn from_logic(info: S) -> (r: Self)
        ensures
            r == Self::from_logic_spec(info),
    ;
}

impl<T: DomainReason> UvsLogicFrom<String> for T {
    open spec fn from_logic_spec(info: String) -> T {
        T::from_uvs_spec(UvsReason::LogicError(ErrorPayload(info)))
    }

    fn from_logic(info: String) -> (r: T) {
        T::from_uvs(UvsReason::LogicError(ErrorPayload(info)))
    }
}

/// Lift a resource exhaustion failure into any domain reason type.
pub trait UvsResFrom<S>: Sized {
    /// The value `from_res` returns.
    spec fn from_res_spec(info: S) -> Self;

    fn from_res(info: S) -> (r: Self)
        ensures
            r == Self::from_res_spec(info),
    ;
}

impl<T: DomainReason> UvsResFrom<String> for T {
    open spec fn from_res_spec(info: String) -> T {
        T::from_uvs_spec(UvsReason::ResourceError(ErrorPayload(info)))
    }

    fn from_res(info: String) -> (r: T) {
        T::from_uvs(UvsReason::ResourceError(ErrorPayload(info)))
    }
}

/// Lift a network failure into any domain reason type.
pub trait UvsNetFrom<S>: Sized {
    /// The value `from_net` returns.
    spec fn from_net_spec(info: S) -> Self;

    fn from_net(info: S) -> (r: Self)
        ensures
            r == Self::from_net_spec(info),
    ;
}

impl<T: DomainReason> UvsNetFrom<String> for T {
    open spec fn from_net_spec(info: String) -> T {
        T::from_uvs_spec(UvsReason::NetworkError(ErrorPayload(info)))
    }

    fn from_net(info: String) -> (r: T) {
        T::from_uvs(UvsReason::NetworkError(ErrorPayload(info)))
    }
}

/// Lift a timeout into any domain reason type.
pub trait UvsTimeoutFrom<S>: Sized {
    /// The value `from_timeout` returns.
    spec fn from_timeout_spec(info: S) -> Self;

    fn from_timeout(info: S) -> (r: Self)
        ensures
            r == Self::from_timeout_spec(info),
    ;
}

impl<T: DomainReason> UvsTimeoutFrom<String> for T {
    open spec fn from_timeout_spec(info: String) -> T {
        T::from_uvs_spec(UvsReason::TimeoutError(ErrorPayload(info)))
    }

    fn from_timeout(info: String) -> (r: T) {
        T::from_uvs(UvsReason::TimeoutError(ErrorPayload(info)))
    }
}

/// Lift a validation failure into any domain reason type.
pub trait UvsValidationFrom<S>: Sized {
    /// The value `from_validation` returns.
    spec fn from_validation_spec(info: S) -> Self;

    fn from_validation(info: S) -> (r: Self)
        ensures
            r == Self::from_validation_spec(info),
    ;
}

impl<T: DomainReason> UvsValidationFrom<String> for T {
    open spec fn from_validation_spec(info: String) -> T {
        T::from_uvs_spec(UvsReason::ValidationError(ErrorPayload(info)))
    }

    fn from_validation(info: String) -> (r: T) {
        T::from_uvs(UvsReason::ValidationError(ErrorPayload(info)))
    }
}

/// Lift a not-found failure into any domain reason type.
pub trait UvsNotFoundFrom<S>: Sized {
    /// The value `from_not_found` returns.
    spec fn from_not_found_spec(info: S) -> Self;

    fn from_not_found(info: S) -> (r: Self)
        ensures
            r == Self::from_not_found_spec(info),
    ;
}

impl<T: DomainReason> UvsNotFoundFrom<String> for T {
    open spec fn from_not_found_spec(info: String) -> T {
        T::from_uvs_spec(UvsReason::NotFoundError(ErrorPayload(info)))
    }

    fn from_not_found(info: String) -> (r: T) {
        T::from_uvs(UvsReason::NotFoundError(ErrorPayload(info)))
    }
}

/// Lift a permission failure into any domain reason type.
pub trait UvsPermissionFrom<S>: Sized {
    /// The value `from_permission` returns.
    spec fn from_permission_spec(info: S) -> Self;

    fn from_permission(info: S) -> (r: Self)
        ensures
            r == Self::from_permission_spec(info),
    ;
}

impl<T: DomainReason> UvsPermissionFrom<String> for T {
    open spec fn from_permission_spec(info: String) -> T {
        T::from_uvs_spec(UvsReason::PermissionError(ErrorPayload(info)))
    }

    fn from_permission(info: String) -> (r: T) {
        T::from_uvs(UvsReason::PermissionError(ErrorPayload(info)))
    }
}

/// Lift a third-party service failure into any domain reason type.
pub trait UvsExternalFrom<S>: Sized {
    /// The value `from_external` returns.
    spec fn from_external_spec(info: S) -> Self;

    fn from_external(info: S) -> (r: Self)
        ensures
            r == Self::from_external_spec(info),
    ;
}

impl<T: DomainReason> UvsExternalFrom<String> for T {
    open spec fn from_external_spec(info: String) -> T {
        T::from_uvs_spec(UvsReason::ExternalError(ErrorPayload(info)))
    }

    fn from_external(info: String) -> (r: T) {
        T::from_uvs(UvsReason::ExternalError(ErrorPayload(info)))
    }
}

impl ErrorCode for UvsReason {
    open spec fn code_spec(&self) -> int {
        code_of(self@)
    }

    fn error_code(&self) -> (c: i32) {
        match self {
            UvsReason::ValidationError(_) => 100,
            UvsReason::BusinessError(_) => 101,
            UvsReason::NotFoundError(_) => 102,
            UvsReason::PermissionError(_) => 103,
            UvsReason::LogicError(_) => 104,
            UvsReason::DataError(_, _) => 200,
            UvsReason::SystemError(_) => 201,
            UvsReason::NetworkError(_) => 202,
            UvsReason::ResourceError(_) => 203,
            UvsReason::TimeoutError(_) => 204,
            UvsReason::ConfigError(_) => 300,
            UvsReason::ExternalError(_) => 301,
        }
    }
}

} // verus!
