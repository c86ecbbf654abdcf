//! The closed registry of error kinds with their numeric codes, and the
//! structured error value that recoverable failures bubble up as.

use vstd::prelude::*;

verus! {

/// The code a session uses to abort itself.
pub const ABORT_SESSION: u16 = 1042;

/// The code a session uses to abort one query.
pub const ABORT_QUERY: u16 = 1043;

/// Every kind of error the engine reports, as a closed enumeration.
#[derive(Clone, Copy, PartialEq, Eq, Structural, Debug)]
pub enum ErrorKind {
    Success,
    UnknownTypeOfQuery,
    UnImplement,
    UnknownDatabase,
    UnknownSetting,
    SyntaxException,
    BadArguments,
    IllegalDataType,
    UnknownFunction,
    IllegalFunctionState,
    BadDataValueType,
    UnknownPlan,
    IllegalPipelineState,
    BadTransformType,
    IllegalTransformConnectionState,
    LogicalError,
    EmptyData,
    DataStructMissMatch,
    BadDataArrayLength,
    UnknownContextID,
    UnknownVariable,
    UnknownTableFunction,
    BadOption,
    CannotReadFile,
    ParquetError,
    UnknownTable,
    IllegalAggregateExp,
    UnknownAggregateFunction,
    NumberArgumentsNotMatch,
    NotFoundStream,
    EmptyDataFromServer,
    NotFoundLocalNode,
    PlanScheduleError,
    BadPlanInputs,
    DuplicateClusterNode,
    NotFoundClusterNode,
    BadAddressFormat,
    DnsParseError,
    CannotConnectNode,
    DuplicateGetStream,
    Timeout,
    TooManyUserConnections,
    AbortedSession,
    AbortedQuery,
    NotFoundSession,
    CannotListenerPort,
    BadBytes,
    InitPrometheusFailure,
    ScalarSubqueryBadRows,
    Overflow,
    InvalidMetaBinaryFormat,
    AuthenticateFailure,
    TLSConfigurationFailure,
    UnknownSession,
    UnexpectedError,
    DateTimeParseError,
    BadPredicateRows,
    SHA1CheckFailed,
    UnknownColumn,
    InvalidSourceFormat,
    StrParseError,
    IllegalGrant,
    ProxyModePermissionDenied,
    PermissionDenied,
    UnmarshalError,
    SemanticError,
    UnexpectedResponseType,
    UnknownException,
    TokioError,
    HttpNotFound,
    NetworkRequestError,
    MetaServiceError,
    InvalidConfig,
    UnknownNode,
    MetaStoreDamaged,
    MetaStoreAlreadyExists,
    MetaStoreNotFound,
    ConcurrentSnapshotInstall,
    UnknownTableId,
    TableVersionMissMatch,
    UnknownDatabaseId,
    MetaSrvError,
    TransactionAbort,
    TransactionError,
    UnknownUser,
    UserAlreadyExists,
    IllegalUserInfoFormat,
    DatabaseAlreadyExists,
    TableAlreadyExists,
    IllegalMetaOperationArgument,
    IllegalMetaState,
    MetaNodeInternalError,
    ClusterUnknownNode,
    ClusterNodeAlreadyExists,
    UnknownStage,
    StageAlreadyExists,
    IllegalUDFFormat,
    UnknownUDF,
    UdfAlreadyExists,
    UnknownDatabaseEngine,
    UnknownTableEngine,
    UnsupportedEngineParams,
    TenantQuotaExceeded,
    UnknownStorageSchemeName,
    SecretKeyNotSet,
    DalTransportError,
    DalPathNotFound,
    DiskCacheIOError,
    DiskCacheFileTooLarge,
    DiskCacheFileNotInCache,
    AlreadyStarted,
    AlreadyStopped,
}

impl ErrorKind {
    /// The numeric code registered for this kind.
    pub open spec fn spec_code(self) -> u16 {
        match self {
            ErrorKind::Success => 0,
            ErrorKind::UnknownTypeOfQuery => 1001,
            ErrorKind::UnImplement => 1002,
            ErrorKind::UnknownDatabase => 1003,
            ErrorKind::UnknownSetting => 1004,
            ErrorKind::SyntaxException => 1005,
            ErrorKind::BadArguments => 1006,
            ErrorKind::IllegalDataType => 1007,
            ErrorKind::UnknownFunction => 1008,
            ErrorKind::IllegalFunctionState => 1009,
            ErrorKind::BadDataValueType => 1010,
            ErrorKind::UnknownPlan => 1011,
            ErrorKind::IllegalPipelineState => 1012,
            ErrorKind::BadTransformType => 1013,
            ErrorKind::IllegalTransformConnectionState => 1014,
            ErrorKind::LogicalError => 1015,
            ErrorKind::EmptyData => 1016,
            ErrorKind::DataStructMissMatch => 1017,
            ErrorKind::BadDataArrayLength => 1018,
            ErrorKind::UnknownContextID => 1019,
            ErrorKind::UnknownVariable => 1020,
            ErrorKind::UnknownTableFunction => 1021,
            ErrorKind::BadOption => 1022,
            ErrorKind::CannotReadFile => 1023,
            ErrorKind::ParquetError => 1024,
            ErrorKind::UnknownTable => 1025,
            ErrorKind::IllegalAggregateExp => 1026,
            ErrorKind::UnknownAggregateFunction => 1027,
            ErrorKind::NumberArgumentsNotMatch => 1028,
            ErrorKind::NotFoundStream => 1029,
            ErrorKind::EmptyDataFromServer => 1030,
            ErrorKind::NotFoundLocalNode => 1031,
            ErrorKind::PlanScheduleError => 1032,
            ErrorKind::BadPlanInputs => 1033,
            ErrorKind::DuplicateClusterNode => 1034,
            ErrorKind::NotFoundClusterNode => 1035,
            ErrorKind::BadAddressFormat => 1036,
            ErrorKind::DnsParseError => 1037,
            ErrorKind::CannotConnectNode => 1038,
            ErrorKind::DuplicateGetStream => 1039,
            ErrorKind::Timeout => 1040,
            ErrorKind::TooManyUserConnections => 1041,
            ErrorKind::AbortedSession => 1042,
            ErrorKind::AbortedQuery => 1043,
            ErrorKind::NotFoundSession => 1044,
            ErrorKind::CannotListenerPort => 1045,
            ErrorKind::BadBytes => 1046,
            ErrorKind::InitPrometheusFailure => 1047,
            ErrorKind::ScalarSubqueryBadRows => 1048,
            ErrorKind::Overflow => 1049,
            ErrorKind::InvalidMetaBinaryFormat => 1050,
            ErrorKind::AuthenticateFailure => 1051,
            ErrorKind::TLSConfigurationFailure => 1052,
            ErrorKind::UnknownSession => 1053,
            ErrorKind::UnexpectedError => 1054,
            ErrorKind::DateTimeParseError => 1055,
            ErrorKind::BadPredicateRows => 1056,
            ErrorKind::SHA1CheckFailed => 1057,
            ErrorKind::UnknownColumn => 1058,
            ErrorKind::InvalidSourceFormat => 1059,
            ErrorKind::StrParseError => 1060,
            ErrorKind::IllegalGrant => 1061,
            ErrorKind::ProxyModePermissionDenied => 1062,
            ErrorKind::PermissionDenied => 1063,
            ErrorKind::UnmarshalError => 1064,
            ErrorKind::SemanticError => 1065,
            ErrorKind::UnexpectedResponseType => 1066,
            ErrorKind::UnknownException => 1067,
            ErrorKind::TokioError => 1068,
            ErrorKind::HttpNotFound => 1072,
            ErrorKind::NetworkRequestError => 1073,
            ErrorKind::MetaServiceError => 2001,
            ErrorKind::InvalidConfig => 2002,
            ErrorKind::UnknownNode => 2003,
            ErrorKind::MetaStoreDamaged => 2004,
            ErrorKind::MetaStoreAlreadyExists => 2005,
            ErrorKind::MetaStoreNotFound => 2006,
            ErrorKind::ConcurrentSnapshotInstall => 2007,
            ErrorKind::UnknownTableId => 2008,
            ErrorKind::TableVersionMissMatch => 2009,
            ErrorKind::UnknownDatabaseId => 1010,
            ErrorKind::MetaSrvError => 2101,
            ErrorKind::TransactionAbort => 2102,
            ErrorKind::TransactionError => 2103,
            ErrorKind::UnknownUser => 2201,
            ErrorKind::UserAlreadyExists => 2202,
            ErrorKind::IllegalUserInfoFormat => 2203,
            ErrorKind::DatabaseAlreadyExists => 2301,
            ErrorKind::TableAlreadyExists => 2302,
            ErrorKind::IllegalMetaOperationArgument => 2303,
            ErrorKind::IllegalMetaState => 2304,
            ErrorKind::MetaNodeInternalError => 2305,
            ErrorKind::ClusterUnknownNode => 2401,
            ErrorKind::ClusterNodeAlreadyExists => 2402,
            ErrorKind::UnknownStage => 2501,
            ErrorKind::StageAlreadyExists => 2502,
            ErrorKind::IllegalUDFFormat => 2601,
            ErrorKind::UnknownUDF => 2602,
            ErrorKind::UdfAlreadyExists => 2603,
            ErrorKind::UnknownDatabaseEngine => 2701,
            ErrorKind::UnknownTableEngine => 2702,
            ErrorKind::UnsupportedEngineParams => 2703,
            ErrorKind::TenantQuotaExceeded => 2901,
            ErrorKind::UnknownStorageSchemeName => 3001,
            ErrorKind::SecretKeyNotSet => 3002,
            ErrorKind::DalTransportError => 3003,
            ErrorKind::DalPathNotFound => 3004,
            ErrorKind::DiskCacheIOError => 4001,
            ErrorKind::DiskCacheFileTooLarge => 4002,
            ErrorKind::DiskCacheFileNotInCache => 4003,
            ErrorKind::AlreadyStarted => 5001,
            ErrorKind::AlreadyStopped => 5002,
        }
    }

    /// The numeric code registered for this kind.
    pub fn code(&self) -> (r: u16)
        ensures
            r == self.spec_code(),
    {
        match self {
            ErrorKind::Success => 0,
            ErrorKind::UnknownTypeOfQuery => 1001,
            ErrorKind::UnImplement => 1002,
            ErrorKind::UnknownDatabase => 1003,
            ErrorKind::UnknownSetting => 1004,
            ErrorKind::SyntaxException => 1005,
            ErrorKind::BadArguments => 1006,
            ErrorKind::IllegalDataType => 1007,
            ErrorKind::UnknownFunction => 1008,
            ErrorKind::IllegalFunctionState => 1009,
            ErrorKind::BadDataValueType => 1010,
            ErrorKind::UnknownPlan => 1011,
            ErrorKind::IllegalPipelineState => 1012,
            ErrorKind::BadTransformType => 1013,
            ErrorKind::IllegalTransformConnectionState => 1014,
            ErrorKind::LogicalError => 1015,
            ErrorKind::EmptyData => 1016,
            ErrorKind::DataStructMissMatch => 1017,
            ErrorKind::BadDataArrayLength => 1018,
            ErrorKind::UnknownContextID => 1019,
            ErrorKind::UnknownVariable => 1020,
            ErrorKind::UnknownTableFunction => 1021,
            ErrorKind::BadOption => 1022,
            ErrorKind::CannotReadFile => 1023,
            ErrorKind::ParquetError => 1024,
            ErrorKind::UnknownTable => 1025,
            ErrorKind::IllegalAggregateExp => 1026,
            ErrorKind::UnknownAggregateFunction => 1027,
            ErrorKind::NumberArgumentsNotMatch => 1028,
            ErrorKind::NotFoundStream => 1029,
            ErrorKind::EmptyDataFromServer => 1030,
            ErrorKind::NotFoundLocalNode => 1031,
            ErrorKind::PlanScheduleError => 1032,
            ErrorKind::BadPlanInputs => 1033,
            ErrorKind::DuplicateClusterNode => 1034,
            ErrorKind::NotFoundClusterNode => 1035,
            ErrorKind::BadAddressFormat => 1036,
            ErrorKind::DnsParseError => 1037,
            ErrorKind::CannotConnectNode => 1038,
            ErrorKind::DuplicateGetStream => 1039,
            ErrorKind::Timeout => 1040,
            ErrorKind::TooManyUserConnections => 1041,
            ErrorKind::AbortedSession => 1042,
            ErrorKind::AbortedQuery => 1043,
            ErrorKind::NotFoundSession => 1044,
            ErrorKind::CannotListenerPort => 1045,
            ErrorKind::BadBytes => 1046,
            ErrorKind::InitPrometheusFailure => 1047,
            ErrorKind::ScalarSubqueryBadRows => 1048,
            ErrorKind::Overflow => 1049,
            ErrorKind::InvalidMetaBinaryFormat => 1050,
            ErrorKind::AuthenticateFailure => 1051,
            ErrorKind::TLSConfigurationFailure => 1052,
            ErrorKind::UnknownSession => 1053,
            ErrorKind::UnexpectedError => 1054,
            ErrorKind::DateTimeParseError => 1055,
            ErrorKind::BadPredicateRows => 1056,
            ErrorKind::SHA1CheckFailed => 1057,
            ErrorKind::UnknownColumn => 1058,
            ErrorKind::InvalidSourceFormat => 1059,
            ErrorKind::StrParseError => 1060,
            ErrorKind::IllegalGrant => 1061,
            ErrorKind::ProxyModePermissionDenied => 1062,
            ErrorKind::PermissionDenied => 1063,
            ErrorKind::UnmarshalError => 1064,
            ErrorKind::SemanticError => 1065,
            ErrorKind::UnexpectedResponseType => 1066,
            ErrorKind::UnknownException => 1067,
            ErrorKind::TokioError => 1068,
            ErrorKind::HttpNotFound => 1072,
            ErrorKind::NetworkRequestError => 1073,
            ErrorKind::MetaServiceError => 2001,
            ErrorKind::InvalidConfig => 2002,
            ErrorKind::UnknownNode => 2003,
            ErrorKind::MetaStoreDamaged => 2004,
            ErrorKind::MetaStoreAlreadyExists => 2005,
            ErrorKind::MetaStoreNotFound => 2006,
            ErrorKind::ConcurrentSnapshotInstall => 2007,
            ErrorKind::UnknownTableId => 2008,
            ErrorKind::TableVersionMissMatch => 2009,
            ErrorKind::UnknownDatabaseId => 1010,
            ErrorKind::MetaSrvError => 2101,
            ErrorKind::TransactionAbort => 2102,
            ErrorKind::TransactionError => 2103,
            ErrorKind::UnknownUser => 2201,
            ErrorKind::UserAlreadyExists => 2202,
            ErrorKind::IllegalUserInfoFormat => 2203,
            ErrorKind::DatabaseAlreadyExists => 2301,
            ErrorKind::TableAlreadyExists => 2302,
            ErrorKind::IllegalMetaOperationArgument => 2303,
            ErrorKind::IllegalMetaState => 2304,
            ErrorKind::MetaNodeInternalError => 2305,
            ErrorKind::ClusterUnknownNode => 2401,
            ErrorKind::ClusterNodeAlreadyExists => 2402,
            ErrorKind::UnknownStage => 2501,
            ErrorKind::StageAlreadyExists => 2502,
            ErrorKind::IllegalUDFFormat => 2601,
            ErrorKind::UnknownUDF => 2602,
            ErrorKind::UdfAlreadyExists => 2603,
            ErrorKind::UnknownDatabaseEngine => 2701,
            ErrorKind::UnknownTableEngine => 2702,
            ErrorKind::UnsupportedEngineParams => 2703,
            ErrorKind::TenantQuotaExceeded => 2901,
            ErrorKind::UnknownStorageSchemeName => 3001,
            ErrorKind::SecretKeyNotSet => 3002,
            ErrorKind::DalTransportError => 3003,
            ErrorKind::DalPathNotFound => 3004,
            ErrorKind::DiskCacheIOError => 4001,
            ErrorKind::DiskCacheFileTooLarge => 4002,
            ErrorKind::DiskCacheFileNotInCache => 4003,
            ErrorKind::AlreadyStarted => 5001,
            ErrorKind::AlreadyStopped => 5002,
        }
    }
}

/// A structured, recoverable error: a registered kind plus display text.
#[derive(Debug)]
pub struct ErrorCode {
    pub kind: ErrorKind,
    pub message: String,
}

impl ErrorCode {
    /// Builds an error of the given kind carrying the given display text.
    pub fn create(kind: ErrorKind, message: String) -> (r: ErrorCode)
        ensures
            r.kind == kind,
            r.message@ == message@,
    {
        ErrorCode { kind, message }
    }

    /// The kind this error was created with.
    pub fn kind(&self) -> (r: ErrorKind)
        ensures
            r == self.kind,
    {
        self.kind
    }

    /// The numeric code of this error's kind.
    pub fn code(&self) -> (r: u16)
        ensures
            r == self.kind.spec_code(),
    {
        self.kind.code()
    }

    /// The display text this error was created with.
    pub fn message(&self) -> (r: &String)
        ensures
            r@ == self.message@,
    {
        &self.message
    }

    /// The kind this error was created with, for contracts.
    pub open spec fn spec_kind(&self) -> ErrorKind {
        self.kind
    }
}

} // verus!
