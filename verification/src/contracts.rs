//! Contracts: the domain's enumerations, request shapes, installment plan and error mapping.
use vstd::prelude::*;
use crate::dates::{CalendarDate, ScheduleError, installment_due_dates, is_schedule};
use crate::http::HttpStatus;
use crate::money::Amount;
use crate::ids::{uuid_text, uuid_to_text};
use crate::text::{has_prefix, str_eq, starts_with, owned};

verus! {

/// How the rent of a contract is adjusted.
#[derive(Clone, Copy, Debug, PartialEq, Eq, Structural)]
pub enum AdjustmentMethod {
    Manual,
    FixedPercentage,
    Ipc,
    Icl,
    CasaPropia,
    Custom,
}

impl AdjustmentMethod {
    /// The name of the value in the database and on the wire.
    pub open spec fn spec_code(self) -> Seq<char> {
        match self {
            AdjustmentMethod::Manual => "MANUAL"@,
            AdjustmentMethod::FixedPercentage => "FIXED_PERCENTAGE"@,
            AdjustmentMethod::Ipc => "IPC"@,
            AdjustmentMethod::Icl => "ICL"@,
            AdjustmentMethod::CasaPropia => "CASA_PROPIA"@,
            AdjustmentMethod::Custom => "CUSTOM"@,
        }
    }

    /// The name of the value in the database and on the wire.
    pub fn code(&self) -> (r: &'static str)
        ensures
            r@ == self.spec_code(),
    {
        match self {
            AdjustmentMethod::Manual => "MANUAL",
            AdjustmentMethod::FixedPercentage => "FIXED_PERCENTAGE",
            AdjustmentMethod::Ipc => "IPC",
            AdjustmentMethod::Icl => "ICL",
            AdjustmentMethod::CasaPropia => "CASA_PROPIA",
            AdjustmentMethod::Custom => "CUSTOM",
        }
    }

    /// The value with the given name, if any.
    pub fn from_code(s: &str) -> (r: Option<Self>)
        ensures
            r matches Some(v) ==> v.spec_code() == s@,
            r is None ==> forall|v: Self| v.spec_code() != s@,
            forall|v: Self| #[trigger] v.spec_code() == s@ ==> r == Some(v),
    {
        let r = if str_eq(s, "MANUAL") {
            Some(AdjustmentMethod::Manual)
        } else if str_eq(s, "FIXED_PERCENTAGE") {
            Some(AdjustmentMethod::FixedPercentage)
        } else if str_eq(s, "IPC") {
            Some(AdjustmentMethod::Ipc)
        } else if str_eq(s, "ICL") {
            Some(AdjustmentMethod::Icl)
        } else if str_eq(s, "CASA_PROPIA") {
            Some(AdjustmentMethod::CasaPropia)
        } else if str_eq(s, "CUSTOM") {
            Some(AdjustmentMethod::Custom)
        } else {
            None
        };
        proof {
            assert forall|v: Self| #[trigger] v.spec_code() == s@ implies r == Some(v) by {
                if let Some(w) = r {
                    Self::lemma_code_injective(v, w);
                }
            }
        }
        r
    }

    /// Distinct values have distinct names.
    pub proof fn lemma_code_injective(a: Self, b: Self)
        ensures
            a.spec_code() == b.spec_code() ==> a == b,
    {
        reveal_strlit("MANUAL");
        reveal_strlit("FIXED_PERCENTAGE");
        reveal_strlit("IPC");
        reveal_strlit("ICL");
        reveal_strlit("CASA_PROPIA");
        reveal_strlit("CUSTOM");
        match (a, b) {
            (AdjustmentMethod::Manual, AdjustmentMethod::FixedPercentage) => assert(a.spec_code().len() != b.spec_code().len()),
            (AdjustmentMethod::Manual, AdjustmentMethod::Ipc) => assert(a.spec_code().len() != b.spec_code().len()),
            (AdjustmentMethod::Manual, AdjustmentMethod::Icl) => assert(a.spec_code().len() != b.spec_code().len()),
            (AdjustmentMethod::Manual, AdjustmentMethod::CasaPropia) => assert(a.spec_code().len() != b.spec_code().len()),
            (AdjustmentMethod::Manual, AdjustmentMethod::Custom) => assert(a.spec_code()[0] != b.spec_code()[0]),
            (AdjustmentMethod::FixedPercentage, AdjustmentMethod::Manual) => assert(a.spec_code().len() != b.spec_code().len()),
            (AdjustmentMethod::FixedPercentage, AdjustmentMethod::Ipc) => assert(a.spec_code().len() != b.spec_code().len()),
            (AdjustmentMethod::FixedPercentage, AdjustmentMethod::Icl) => assert(a.spec_code().len() != b.spec_code().len()),
            (AdjustmentMethod::FixedPercentage, AdjustmentMethod::CasaPropia) => assert(a.spec_code().len() != b.spec_code().len()),
            (AdjustmentMethod::FixedPercentage, AdjustmentMethod::Custom) => assert(a.spec_code().len() != b.spec_code().len()),
            (AdjustmentMethod::Ipc, AdjustmentMethod::Manual) => assert(a.spec_code().len() != b.spec_code().len()),
            (AdjustmentMethod::Ipc, AdjustmentMethod::FixedPercentage) => assert(a.spec_code().len() != b.spec_code().len()),
            (AdjustmentMethod::Ipc, AdjustmentMethod::Icl) => assert(a.spec_code()[1] != b.spec_code()[1]),
            (AdjustmentMethod::Ipc, AdjustmentMethod::CasaPropia) => assert(a.spec_code().len() != b.spec_code().len()),
            (AdjustmentMethod::Ipc, AdjustmentMethod::Custom) => assert(a.spec_code().len() != b.spec_code().len()),
            (AdjustmentMethod::Icl, AdjustmentMethod::Manual) => assert(a.spec_code().len() != b.spec_code().len()),
            (AdjustmentMethod::Icl, AdjustmentMethod::FixedPercentage) => assert(a.spec_code().len() != b.spec_code().len()),
            (AdjustmentMethod::Icl, AdjustmentMethod::Ipc) => assert(a.spec_code()[1] != b.spec_code()[1]),
            (AdjustmentMethod::Icl, AdjustmentMethod::CasaPropia) => assert(a.spec_code().len() != b.spec_code().len()),
            (AdjustmentMethod::Icl, AdjustmentMethod::Custom) => assert(a.spec_code().len() != b.spec_code().len()),
            (AdjustmentMethod::CasaPropia, AdjustmentMethod::Manual) => assert(a.spec_code().len() != b.spec_code().len()),
            (AdjustmentMethod::CasaPropia, AdjustmentMethod::FixedPercentage) => assert(a.spec_code().len() != b.spec_code().len()),
            (AdjustmentMethod::CasaPropia, AdjustmentMethod::Ipc) => assert(a.spec_code().len() != b.spec_code().len()),
            (AdjustmentMethod::CasaPropia, AdjustmentMethod::Icl) => assert(a.spec_code().len() != b.spec_code().len()),
            (AdjustmentMethod::CasaPropia, AdjustmentMethod::Custom) => assert(a.spec_code().len() != b.spec_code().len()),
            (AdjustmentMethod::Custom, AdjustmentMethod::Manual) => assert(a.spec_code()[0] != b.spec_code()[0]),
            (AdjustmentMethod::Custom, AdjustmentMethod::FixedPercentage) => assert(a.spec_code().len() != b.spec_code().len()),
            (AdjustmentMethod::Custom, AdjustmentMethod::Ipc) => assert(a.spec_code().len() != b.spec_code().len()),
            (AdjustmentMethod::Custom, AdjustmentMethod::Icl) => assert(a.spec_code().len() != b.spec_code().len()),
            (AdjustmentMethod::Custom, AdjustmentMethod::CasaPropia) => assert(a.spec_code().len() != b.spec_code().len()),
            _ => {},
        }
    }
}

/// How often the rent of a contract is adjusted.
#[derive(Clone, Copy, Debug, PartialEq, Eq, Structural)]
pub enum AdjustmentFrequency {
    Monthly,
    Bimonthly,
    Quarterly,
    Semester,
    Annual,
}

impl AdjustmentFrequency {
    /// The name of the value in the database and on the wire.
    pub open spec fn spec_code(self) -> Seq<char> {
        match self {
            AdjustmentFrequency::Monthly => "MONTHLY"@,
            AdjustmentFrequency::Bimonthly => "BIMONTHLY"@,
            AdjustmentFrequency::Quarterly => "QUARTERLY"@,
            AdjustmentFrequency::Semester => "SEMESTER"@,
            AdjustmentFrequency::Annual => "ANNUAL"@,
        }
    }

    /// The name of the value in the database and on the wire.
    pub fn code(&self) -> (r: &'static str)
        ensures
            r@ == self.spec_code(),
    {
        match self {
            AdjustmentFrequency::Monthly => "MONTHLY",
            AdjustmentFrequency::Bimonthly => "BIMONTHLY",
            AdjustmentFrequency::Quarterly => "QUARTERLY",
            AdjustmentFrequency::Semester => "SEMESTER",
            AdjustmentFrequency::Annual => "ANNUAL",
        }
    }

    /// The value with the given name, if any.
    pub fn from_code(s: &str) -> (r: Option<Self>)
        ensures
            r matches Some(v) ==> v.spec_code() == s@,
            r is None ==> forall|v: Self| v.spec_code() != s@,
            forall|v: Self| #[trigger] v.spec_code() == s@ ==> r == Some(v),
    {
        let r = if str_eq(s, "MONTHLY") {
            Some(AdjustmentFrequency::Monthly)
        } else if str_eq(s, "BIMONTHLY") {
            Some(AdjustmentFrequency::Bimonthly)
        } else if str_eq(s, "QUARTERLY") {
            Some(AdjustmentFrequency::Quarterly)
        } else if str_eq(s, "SEMESTER") {
            Some(AdjustmentFrequency::Semester)
        } else if str_eq(s, "ANNUAL") {
            Some(AdjustmentFrequency::Annual)
        } else {
            None
        };
        proof {
            assert forall|v: Self| #[trigger] v.spec_code() == s@ implies r == Some(v) by {
                if let Some(w) = r {
                    Self::lemma_code_injective(v, w);
                }
            }
        }
        r
    }

    /// Distinct values have distinct names.
    pub proof fn lemma_code_injective(a: Self, b: Self)
        ensures
            a.spec_code() == b.spec_code() ==> a == b,
    {
        reveal_strlit("MONTHLY");
        reveal_strlit("BIMONTHLY");
        reveal_strlit("QUARTERLY");
        reveal_strlit("SEMESTER");
        reveal_strlit("ANNUAL");
        match (a, b) {
            (AdjustmentFrequency::Monthly, AdjustmentFrequency::Bimonthly) => assert(a.spec_code().len() != b.spec_code().len()),
            (AdjustmentFrequency::Monthly, AdjustmentFrequency::Quarterly) => assert(a.spec_code().len() != b.spec_code().len()),
            (AdjustmentFrequency::Monthly, AdjustmentFrequency::Semester) => assert(a.spec_code().len() != b.spec_code().len()),
            (AdjustmentFrequency::Monthly, AdjustmentFrequency::Annual) => assert(a.spec_code().len() != b.spec_code().len()),
            (AdjustmentFrequency::Bimonthly, AdjustmentFrequency::Monthly) => assert(a.spec_code().len() != b.spec_code().len()),
            (AdjustmentFrequency::Bimonthly, AdjustmentFrequency::Quarterly) => assert(a.spec_code()[0] != b.spec_code()[0]),
            (AdjustmentFrequency::Bimonthly, AdjustmentFrequency::Semester) => assert(a.spec_code().len() != b.spec_code().len()),
            (AdjustmentFrequency::Bimonthly, AdjustmentFrequency::Annual) => assert(a.spec_code().len() != b.spec_code().len()),
            (AdjustmentFrequency::Quarterly, AdjustmentFrequency::Monthly) => assert(a.spec_code().len() != b.spec_code().len()),
            (AdjustmentFrequency::Quarterly, AdjustmentFrequency::Bimonthly) => assert(a.spec_code()[0] != b.spec_code()[0]),
            (AdjustmentFrequency::Quarterly, AdjustmentFrequency::Semester) => assert(a.spec_code().len() != b.spec_code().len()),
            (AdjustmentFrequency::Quarterly, AdjustmentFrequency::Annual) => assert(a.spec_code().len() != b.spec_code().len()),
            (AdjustmentFrequency::Semester, AdjustmentFrequency::Monthly) => assert(a.spec_code().len() != b.spec_code().len()),
            (AdjustmentFrequency::Semester, AdjustmentFrequency::Bimonthly) => assert(a.spec_code().len() != b.spec_code().len()),
            (AdjustmentFrequency::Semester, AdjustmentFrequency::Quarterly) => assert(a.spec_code().len() != b.spec_code().len()),
            (AdjustmentFrequency::Semester, AdjustmentFrequency::Annual) => assert(a.spec_code().len() != b.spec_code().len()),
            (AdjustmentFrequency::Annual, AdjustmentFrequency::Monthly) => assert(a.spec_code().len() != b.spec_code().len()),
            (AdjustmentFrequency::Annual, AdjustmentFrequency::Bimonthly) => assert(a.spec_code().len() != b.spec_code().len()),
            (AdjustmentFrequency::Annual, AdjustmentFrequency::Quarterly) => assert(a.spec_code().len() != b.spec_code().len()),
            (AdjustmentFrequency::Annual, AdjustmentFrequency::Semester) => assert(a.spec_code().len() != b.spec_code().len()),
            _ => {},
        }
    }
}

/// State of a proposed rent adjustment.
#[derive(Clone, Copy, Debug, PartialEq, Eq, Structural)]
pub enum AdjustmentStatus {
    Pending,
    Approved,
    Rejected,
    RolledBack,
    PendingIndexData,
}

impl AdjustmentStatus {
    /// The name of the value in the database and on the wire.
    pub open spec fn spec_code(self) -> Seq<char> {
        match self {
            AdjustmentStatus::Pending => "PENDING"@,
            AdjustmentStatus::Approved => "APPROVED"@,
            AdjustmentStatus::Rejected => "REJECTED"@,
            AdjustmentStatus::RolledBack => "ROLLED_BACK"@,
            AdjustmentStatus::PendingIndexData => "PENDING_INDEX_DATA"@,
        }
    }

    /// The name of the value in the database and on the wire.
    pub fn code(&self) -> (r: &'static str)
        ensures
            r@ == self.spec_code(),
    {
        match self {
            AdjustmentStatus::Pending => "PENDING",
            AdjustmentStatus::Approved => "APPROVED",
            AdjustmentStatus::Rejected => "REJECTED",
            AdjustmentStatus::RolledBack => "ROLLED_BACK",
            AdjustmentStatus::PendingIndexData => "PENDING_INDEX_DATA",
        }
    }

    /// The value with the given name, if any.
    pub fn from_code(s: &str) -> (r: Option<Self>)
        ensures
            r matches Some(v) ==> v.spec_code() == s@,
            r is None ==> forall|v: Self| v.spec_code() != s@,
            forall|v: Self| #[trigger] v.spec_code() == s@ ==> r == Some(v),
    {
        let r = if str_eq(s, "PENDING") {
            Some(AdjustmentStatus::Pending)
        } else if str_eq(s, "APPROVED") {
            Some(AdjustmentStatus::Approved)
        } else if str_eq(s, "REJECTED") {
            Some(AdjustmentStatus::Rejected)
        } else if str_eq(s, "ROLLED_BACK") {
            Some(AdjustmentStatus::RolledBack)
        } else if str_eq(s, "PENDING_INDEX_DATA") {
            Some(AdjustmentStatus::PendingIndexData)
        } else {
            None
        };
        proof {
            assert forall|v: Self| #[trigger] v.spec_code() == s@ implies r == Some(v) by {
                if let Some(w) = r {
                    Self::lemma_code_injective(v, w);
                }
            }
        }
        r
    }

    /// Distinct values have distinct names.
    pub proof fn lemma_code_injective(a: Self, b: Self)
        ensures
            a.spec_code() == b.spec_code() ==> a == b,
    {
        reveal_strlit("PENDING");
        reveal_strlit("APPROVED");
        reveal_strlit("REJECTED");
        reveal_strlit("ROLLED_BACK");
        reveal_strlit("PENDING_INDEX_DATA");
        match (a, b) {
            (AdjustmentStatus::Pending, AdjustmentStatus::Approved) => assert(a.spec_code().len() != b.spec_code().len()),
            (AdjustmentStatus::Pending, AdjustmentStatus::Rejected) => assert(a.spec_code().len() != b.spec_code().len()),
            (AdjustmentStatus::Pending, AdjustmentStatus::RolledBack) => assert(a.spec_code().len() != b.spec_code().len()),
            (AdjustmentStatus::Pending, AdjustmentStatus::PendingIndexData) => assert(a.spec_code().len() != b.spec_code().len()),
            (AdjustmentStatus::Approved, AdjustmentStatus::Pending) => assert(a.spec_code().len() != b.spec_code().len()),
            (AdjustmentStatus::Approved, AdjustmentStatus::Rejected) => assert(a.spec_code()[0] != b.spec_code()[0]),
            (AdjustmentStatus::Approved, AdjustmentStatus::RolledBack) => assert(a.spec_code().len() != b.spec_code().len()),
            (AdjustmentStatus::Approved, AdjustmentStatus::PendingIndexData) => assert(a.spec_code().len() != b.spec_code().len()),
            (AdjustmentStatus::Rejected, AdjustmentStatus::Pending) => assert(a.spec_code().len() != b.spec_code().len()),
            (AdjustmentStatus::Rejected, AdjustmentStatus::Approved) => assert(a.spec_code()[0] != b.spec_code()[0]),
            (AdjustmentStatus::Rejected, AdjustmentStatus::RolledBack) => assert(a.spec_code().len() != b.spec_code().len()),
            (AdjustmentStatus::Rejected, AdjustmentStatus::PendingIndexData) => assert(a.spec_code().len() != b.spec_code().len()),
            (AdjustmentStatus::RolledBack, AdjustmentStatus::Pending) => assert(a.spec_code().len() != b.spec_code().len()),
            (AdjustmentStatus::RolledBack, AdjustmentStatus::Approved) => assert(a.spec_code().len() != b.spec_code().len()),
            (AdjustmentStatus::RolledBack, AdjustmentStatus::Rejected) => assert(a.spec_code().len() != b.spec_code().len()),
            (AdjustmentStatus::RolledBack, AdjustmentStatus::PendingIndexData) => assert(a.spec_code().len() != b.spec_code().len()),
            (AdjustmentStatus::PendingIndexData, AdjustmentStatus::Pending) => assert(a.spec_code().len() != b.spec_code().len()),
            (AdjustmentStatus::PendingIndexData, AdjustmentStatus::Approved) => assert(a.spec_code().len() != b.spec_code().len()),
            (AdjustmentStatus::PendingIndexData, AdjustmentStatus::Rejected) => assert(a.spec_code().len() != b.spec_code().len()),
            (AdjustmentStatus::PendingIndexData, AdjustmentStatus::RolledBack) => assert(a.spec_code().len() != b.spec_code().len()),
            _ => {},
        }
    }
}

/// How much of the adjustment process runs without a person.
#[derive(Clone, Copy, Debug, PartialEq, Eq, Structural)]
pub enum AutomationMode {
    Manual,
    Semiautomatic,
    Automatic,
}

impl AutomationMode {
    /// The name of the value in the database and on the wire.
    pub open spec fn spec_code(self) -> Seq<char> {
        match self {
            AutomationMode::Manual => "MANUAL"@,
            AutomationMode::Semiautomatic => "SEMIAUTOMATIC"@,
            AutomationMode::Automatic => "AUTOMATIC"@,
        }
    }

    /// The name of the value in the database and on the wire.
    pub fn code(&self) -> (r: &'static str)
        ensures
            r@ == self.spec_code(),
    {
        match self {
            AutomationMode::Manual => "MANUAL",
            AutomationMode::Semiautomatic => "SEMIAUTOMATIC",
            AutomationMode::Automatic => "AUTOMATIC",
        }
    }

    /// The value with the given name, if any.
    pub fn from_code(s: &str) -> (r: Option<Self>)
        ensures
            r matches Some(v) ==> v.spec_code() == s@,
            r is None ==> forall|v: Self| v.spec_code() != s@,
            forall|v: Self| #[trigger] v.spec_code() == s@ ==> r == Some(v),
    {
        let r = if str_eq(s, "MANUAL") {
            Some(AutomationMode::Manual)
        } else if str_eq(s, "SEMIAUTOMATIC") {
            Some(AutomationMode::Semiautomatic)
        } else if str_eq(s, "AUTOMATIC") {
            Some(AutomationMode::Automatic)
        } else {
            None
        };
        proof {
            assert forall|v: Self| #[trigger] v.spec_code() == s@ implies r == Some(v) by {
                if let Some(w) = r {
                    Self::lemma_code_injective(v, w);
                }
            }
        }
        r
    }

    /// Distinct values have distinct names.
    pub proof fn lemma_code_injective(a: Self, b: Self)
        ensures
            a.spec_code() == b.spec_code() ==> a == b,
    {
        reveal_strlit("MANUAL");
        reveal_strlit("SEMIAUTOMATIC");
        reveal_strlit("AUTOMATIC");
        match (a, b) {
            (AutomationMode::Manual, AutomationMode::Semiautomatic) => assert(a.spec_code().len() != b.spec_code().len()),
            (AutomationMode::Manual, AutomationMode::Automatic) => assert(a.spec_code().len() != b.spec_code().len()),
            (AutomationMode::Semiautomatic, AutomationMode::Manual) => assert(a.spec_code().len() != b.spec_code().len()),
            (AutomationMode::Semiautomatic, AutomationMode::Automatic) => assert(a.spec_code().len() != b.spec_code().len()),
            (AutomationMode::Automatic, AutomationMode::Manual) => assert(a.spec_code().len() != b.spec_code().len()),
            (AutomationMode::Automatic, AutomationMode::Semiautomatic) => assert(a.spec_code().len() != b.spec_code().len()),
            _ => {},
        }
    }
}

/// Payment state of a rent installment.
#[derive(Clone, Copy, Debug, PartialEq, Eq, Structural)]
pub enum InstallmentStatus {
    Pending,
    PartiallyPaid,
    Paid,
    Overdue,
    Cancelled,
}

impl InstallmentStatus {
    /// The name of the value in the database and on the wire.
    pub open spec fn spec_code(self) -> Seq<char> {
        match self {
            InstallmentStatus::Pending => "PENDING"@,
            InstallmentStatus::PartiallyPaid => "PARTIALLY_PAID"@,
            InstallmentStatus::Paid => "PAID"@,
            InstallmentStatus::Overdue => "OVERDUE"@,
            InstallmentStatus::Cancelled => "CANCELLED"@,
        }
    }

    /// The name of the value in the database and on the wire.
    pub fn code(&self) -> (r: &'static str)
        ensures
            r@ == self.spec_code(),
    {
        match self {
            InstallmentStatus::Pending => "PENDING",
            InstallmentStatus::PartiallyPaid => "PARTIALLY_PAID",
            InstallmentStatus::Paid => "PAID",
            InstallmentStatus::Overdue => "OVERDUE",
            InstallmentStatus::Cancelled => "CANCELLED",
        }
    }

    /// The value with the given name, if any.
    pub fn from_code(s: &str) -> (r: Option<Self>)
        ensures
            r matches Some(v) ==> v.spec_code() == s@,
            r is None ==> forall|v: Self| v.spec_code() != s@,
            forall|v: Self| #[trigger] v.spec_code() == s@ ==> r == Some(v),
    {
        let r = if str_eq(s, "PENDING") {
            Some(InstallmentStatus::Pending)
        } else if str_eq(s, "PARTIALLY_PAID") {
            Some(InstallmentStatus::PartiallyPaid)
        } else if str_eq(s, "PAID") {
            Some(InstallmentStatus::Paid)
        } else if str_eq(s, "OVERDUE") {
            Some(InstallmentStatus::Overdue)
        } else if str_eq(s, "CANCELLED") {
            Some(InstallmentStatus::Cancelled)
        } else {
            None
        };
        proof {
            assert forall|v: Self| #[trigger] v.spec_code() == s@ implies r == Some(v) by {
                if let Some(w) = r {
                    Self::lemma_code_injective(v, w);
                }
            }
        }
        r
    }

    /// Distinct values have distinct names.
    pub proof fn lemma_code_injective(a: Self, b: Self)
        ensures
            a.spec_code() == b.spec_code() ==> a == b,
    {
        reveal_strlit("PENDING");
        reveal_strlit("PARTIALLY_PAID");
        reveal_strlit("PAID");
        reveal_strlit("OVERDUE");
        reveal_strlit("CANCELLED");
        match (a, b) {
            (InstallmentStatus::Pending, InstallmentStatus::PartiallyPaid) => assert(a.spec_code().len() != b.spec_code().len()),
            (InstallmentStatus::Pending, InstallmentStatus::Paid) => assert(a.spec_code().len() != b.spec_code().len()),
            (InstallmentStatus::Pending, InstallmentStatus::Overdue) => assert(a.spec_code()[0] != b.spec_code()[0]),
            (InstallmentStatus::Pending, InstallmentStatus::Cancelled) => assert(a.spec_code().len() != b.spec_code().len()),
            (InstallmentStatus::PartiallyPaid, InstallmentStatus::Pending) => assert(a.spec_code().len() != b.spec_code().len()),
            (InstallmentStatus::PartiallyPaid, InstallmentStatus::Paid) => assert(a.spec_code().len() != b.spec_code().len()),
            (InstallmentStatus::PartiallyPaid, InstallmentStatus::Overdue) => assert(a.spec_code().len() != b.spec_code().len()),
            (InstallmentStatus::PartiallyPaid, InstallmentStatus::Cancelled) => assert(a.spec_code().len() != b.spec_code().len()),
            (InstallmentStatus::Paid, InstallmentStatus::Pending) => assert(a.spec_code().len() != b.spec_code().len()),
            (InstallmentStatus::Paid, InstallmentStatus::PartiallyPaid) => assert(a.spec_code().len() != b.spec_code().len()),
            (InstallmentStatus::Paid, InstallmentStatus::Overdue) => assert(a.spec_code().len() != b.spec_code().len()),
            (InstallmentStatus::Paid, InstallmentStatus::Cancelled) => assert(a.spec_code().len() != b.spec_code().len()),
            (InstallmentStatus::Overdue, InstallmentStatus::Pending) => assert(a.spec_code()[0] != b.spec_code()[0]),
            (InstallmentStatus::Overdue, InstallmentStatus::PartiallyPaid) => assert(a.spec_code().len() != b.spec_code().len()),
            (InstallmentStatus::Overdue, InstallmentStatus::Paid) => assert(a.spec_code().len() != b.spec_code().len()),
            (InstallmentStatus::Overdue, InstallmentStatus::Cancelled) => assert(a.spec_code().len() != b.spec_code().len()),
            (InstallmentStatus::Cancelled, InstallmentStatus::Pending) => assert(a.spec_code().len() != b.spec_code().len()),
            (InstallmentStatus::Cancelled, InstallmentStatus::PartiallyPaid) => assert(a.spec_code().len() != b.spec_code().len()),
            (InstallmentStatus::Cancelled, InstallmentStatus::Paid) => assert(a.spec_code().len() != b.spec_code().len()),
            (InstallmentStatus::Cancelled, InstallmentStatus::Overdue) => assert(a.spec_code().len() != b.spec_code().len()),
            _ => {},
        }
    }
}

/// Life-cycle state of a contract.
#[derive(Clone, Copy, Debug, PartialEq, Eq, Structural)]
pub enum ContractStatus {
    Draft,
    PendingSignature,
    Signed,
    Active,
    Suspended,
    Finished,
    Terminated,
    Annulled,
}

impl ContractStatus {
    /// The name of the value in the database and on the wire.
    pub open spec fn spec_code(self) -> Seq<char> {
        match self {
            ContractStatus::Draft => "DRAFT"@,
            ContractStatus::PendingSignature => "PENDING_SIGNATURE"@,
            ContractStatus::Signed => "SIGNED"@,
            ContractStatus::Active => "ACTIVE"@,
            ContractStatus::Suspended => "SUSPENDED"@,
            ContractStatus::Finished => "FINISHED"@,
            ContractStatus::Terminated => "TERMINATED"@,
            ContractStatus::Annulled => "ANNULLED"@,
        }
    }

    /// The name of the value in the database and on the wire.
    pub fn code(&self) -> (r: &'static str)
        ensures
            r@ == self.spec_code(),
    {
        match self {
            ContractStatus::Draft => "DRAFT",
            ContractStatus::PendingSignature => "PENDING_SIGNATURE",
            ContractStatus::Signed => "SIGNED",
            ContractStatus::Active => "ACTIVE",
            ContractStatus::Suspended => "SUSPENDED",
            ContractStatus::Finished => "FINISHED",
            ContractStatus::Terminated => "TERMINATED",
            ContractStatus::Annulled => "ANNULLED",
        }
    }

    /// The value with the given name, if any.
    pub fn from_code(s: &str) -> (r: Option<Self>)
        ensures
            r matches Some(v) ==> v.spec_code() == s@,
            r is None ==> forall|v: Self| v.spec_code() != s@,
            forall|v: Self| #[trigger] v.spec_code() == s@ ==> r == Some(v),
    {
        let r = if str_eq(s, "DRAFT") {
            Some(ContractStatus::Draft)
        } else if str_eq(s, "PENDING_SIGNATURE") {
            Some(ContractStatus::PendingSignature)
        } else if str_eq(s, "SIGNED") {
            Some(ContractStatus::Signed)
        } else if str_eq(s, "ACTIVE") {
            Some(ContractStatus::Active)
        } else if str_eq(s, "SUSPENDED") {
            Some(ContractStatus::Suspended)
        } else if str_eq(s, "FINISHED") {
            Some(ContractStatus::Finished)
        } else if str_eq(s, "TERMINATED") {
            Some(ContractStatus::Terminated)
        } else if str_eq(s, "ANNULLED") {
            Some(ContractStatus::Annulled)
        } else {
            None
        };
        proof {
            assert forall|v: Self| #[trigger] v.spec_code() == s@ implies r == Some(v) by {
                if let Some(w) = r {
                    Self::lemma_code_injective(v, w);
                }
            }
        }
        r
    }

    /// Distinct values have distinct names.
    pub proof fn lemma_code_injective(a: Self, b: Self)
        ensures
            a.spec_code() == b.spec_code() ==> a == b,
    {
        reveal_strlit("DRAFT");
        reveal_strlit("PENDING_SIGNATURE");
        reveal_strlit("SIGNED");
        reveal_strlit("ACTIVE");
        reveal_strlit("SUSPENDED");
        reveal_strlit("FINISHED");
        reveal_strlit("TERMINATED");
        reveal_strlit("ANNULLED");
        match (a, b) {
            (ContractStatus::Draft, ContractStatus::PendingSignature) => assert(a.spec_code().len() != b.spec_code().len()),
            (ContractStatus::Draft, ContractStatus::Signed) => assert(a.spec_code().len() != b.spec_code().len()),
            (ContractStatus::Draft, ContractStatus::Active) => assert(a.spec_code().len() != b.spec_code().len()),
            (ContractStatus::Draft, ContractStatus::Suspended) => assert(a.spec_code().len() != b.spec_code().len()),
            (ContractStatus::Draft, ContractStatus::Finished) => assert(a.spec_code().len() != b.spec_code().len()),
            (ContractStatus::Draft, ContractStatus::Terminated) => assert(a.spec_code().len() != b.spec_code().len()),
            (ContractStatus::Draft, ContractStatus::Annulled) => assert(a.spec_code().len() != b.spec_code().len()),
            (ContractStatus::PendingSignature, ContractStatus::Draft) => assert(a.spec_code().len() != b.spec_code().len()),
            (ContractStatus::PendingSignature, ContractStatus::Signed) => assert(a.spec_code().len() != b.spec_code().len()),
            (ContractStatus::PendingSignature, ContractStatus::Active) => assert(a.spec_code().len() != b.spec_code().len()),
            (ContractStatus::PendingSignature, ContractStatus::Suspended) => assert(a.spec_code().len() != b.spec_code().len()),
            (ContractStatus::PendingSignature, ContractStatus::Finished) => assert(a.spec_code().len() != b.spec_code().len()),
            (ContractStatus::PendingSignature, ContractStatus::Terminated) => assert(a.spec_code().len() != b.spec_code().len()),
            (ContractStatus::PendingSignature, ContractStatus::Annulled) => assert(a.spec_code().len() != b.spec_code().len()),
            (ContractStatus::Signed, ContractStatus::Draft) => assert(a.spec_code().len() != b.spec_code().len()),
            (ContractStatus::Signed, ContractStatus::PendingSignature) => assert(a.spec_code().len() != b.spec_code().len()),
            (ContractStatus::Signed, ContractStatus::Active) => assert(a.spec_code()[0] != b.spec_code()[0]),
            (ContractStatus::Signed, ContractStatus::Suspended) => assert(a.spec_code().len() != b.spec_code().len()),
            (ContractStatus::Signed, ContractStatus::Finished) => assert(a.spec_code().len() != b.spec_code().len()),
            (ContractStatus::Signed, ContractStatus::Terminated) => assert(a.spec_code().len() != b.spec_code().len()),
            (ContractStatus::Signed, ContractStatus::Annulled) => assert(a.spec_code().len() != b.spec_code().len()),
            (ContractStatus::Active, ContractStatus::Draft) => assert(a.spec_code().len() != b.spec_code().len()),
            (ContractStatus::Active, ContractStatus::PendingSignature) => assert(a.spec_code().len() != b.spec_code().len()),
            (ContractStatus::Active, ContractStatus::Signed) => assert(a.spec_code()[0] != b.spec_code()[0]),
            (ContractStatus::Active, ContractStatus::Suspended) => assert(a.spec_code().len() != b.spec_code().len()),
            (ContractStatus::Active, ContractStatus::Finished) => assert(a.spec_code().len() != b.spec_code().len()),
            (ContractStatus::Active, ContractStatus::Terminated) => assert(a.spec_code().len() != b.spec_code().len()),
            (ContractStatus::Active, ContractStatus::Annulled) => assert(a.spec_code().len() != b.spec_code().len()),
            (ContractStatus::Suspended, ContractStatus::Draft) => assert(a.spec_code().len() != b.spec_code().len()),
            (ContractStatus::Suspended, ContractStatus::PendingSignature) => assert(a.spec_code().len() != b.spec_code().len()),
            (ContractStatus::Suspended, ContractStatus::Signed) => assert(a.spec_code().len() != b.spec_code().len()),
            (ContractStatus::Suspended, ContractStatus::Active) => assert(a.spec_code().len() != b.spec_code().len()),
            (ContractStatus::Suspended, ContractStatus::Finished) => assert(a.spec_code().len() != b.spec_code().len()),
            (ContractStatus::Suspended, ContractStatus::Terminated) => assert(a.spec_code().len() != b.spec_code().len()),
            (ContractStatus::Suspended, ContractStatus::Annulled) => assert(a.spec_code().len() != b.spec_code().len()),
            (ContractStatus::Finished, ContractStatus::Draft) => assert(a.spec_code().len() != b.spec_code().len()),
            (ContractStatus::Finished, ContractStatus::PendingSignature) => assert(a.spec_code().len() != b.spec_code().len()),
            (ContractStatus::Finished, ContractStatus::Signed) => assert(a.spec_code().len() != b.spec_code().len()),
            (ContractStatus::Finished, ContractStatus::Active) => assert(a.spec_code().len() != b.spec_code().len()),
            (ContractStatus::Finished, ContractStatus::Suspended) => assert(a.spec_code().len() != b.spec_code().len()),
            (ContractStatus::Finished, ContractStatus::Terminated) => assert(a.spec_code().len() != b.spec_code().len()),
            (ContractStatus::Finished, ContractStatus::Annulled) => assert(a.spec_code()[0] != b.spec_code()[0]),
            (ContractStatus::Terminated, ContractStatus::Draft) => assert(a.spec_code().len() != b.spec_code().len()),
            (ContractStatus::Terminated, ContractStatus::PendingSignature) => assert(a.spec_code().len() != b.spec_code().len()),
            (ContractStatus::Terminated, ContractStatus::Signed) => assert(a.spec_code().len() != b.spec_code().len()),
            (ContractStatus::Terminated, ContractStatus::Active) => assert(a.spec_code().len() != b.spec_code().len()),
            (ContractStatus::Terminated, ContractStatus::Suspended) => assert(a.spec_code().len() != b.spec_code().len()),
            (ContractStatus::Terminated, ContractStatus::Finished) => assert(a.spec_code().len() != b.spec_code().len()),
            (ContractStatus::Terminated, ContractStatus::Annulled) => assert(a.spec_code().len() != b.spec_code().len()),
            (ContractStatus::Annulled, ContractStatus::Draft) => assert(a.spec_code().len() != b.spec_code().len()),
            (ContractStatus::Annulled, ContractStatus::PendingSignature) => assert(a.spec_code().len() != b.spec_code().len()),
            (ContractStatus::Annulled, ContractStatus::Signed) => assert(a.spec_code().len() != b.spec_code().len()),
            (ContractStatus::Annulled, ContractStatus::Active) => assert(a.spec_code().len() != b.spec_code().len()),
            (ContractStatus::Annulled, ContractStatus::Suspended) => assert(a.spec_code().len() != b.spec_code().len()),
            (ContractStatus::Annulled, ContractStatus::Finished) => assert(a.spec_code()[0] != b.spec_code()[0]),
            (ContractStatus::Annulled, ContractStatus::Terminated) => assert(a.spec_code().len() != b.spec_code().len()),
            _ => {},
        }
    }
}

/// Kind of rental contract.
#[derive(Clone, Copy, Debug, PartialEq, Eq, Structural)]
pub enum ContractType {
    Housing,
    Commercial,
    Temporary,
    Professional,
}

impl ContractType {
    /// The name of the value in the database and on the wire.
    pub open spec fn spec_code(self) -> Seq<char> {
        match self {
            ContractType::Housing => "HOUSING"@,
            ContractType::Commercial => "COMMERCIAL"@,
            ContractType::Temporary => "TEMPORARY"@,
            ContractType::Professional => "PROFESSIONAL"@,
        }
    }

    /// The name of the value in the database and on the wire.
    pub fn code(&self) -> (r: &'static str)
        ensures
            r@ == self.spec_code(),
    {
        match self {
            ContractType::Housing => "HOUSING",
            ContractType::Commercial => "COMMERCIAL",
            ContractType::Temporary => "TEMPORARY",
            ContractType::Professional => "PROFESSIONAL",
        }
    }

    /// The value with the given name, if any.
    pub fn from_code(s: &str) -> (r: Option<Self>)
        ensures
            r matches Some(v) ==> v.spec_code() == s@,
            r is None ==> forall|v: Self| v.spec_code() != s@,
            forall|v: Self| #[trigger] v.spec_code() == s@ ==> r == Some(v),
    {
        let r = if str_eq(s, "HOUSING") {
            Some(ContractType::Housing)
        } else if str_eq(s, "COMMERCIAL") {
            Some(ContractType::Commercial)
        } else if str_eq(s, "TEMPORARY") {
            Some(ContractType::Temporary)
        } else if str_eq(s, "PROFESSIONAL") {
            Some(ContractType::Professional)
        } else {
            None
        };
        proof {
            assert forall|v: Self| #[trigger] v.spec_code() == s@ implies r == Some(v) by {
                if let Some(w) = r {
                    Self::lemma_code_injective(v, w);
                }
            }
        }
        r
    }

    /// Distinct values have distinct names.
    pub proof fn lemma_code_injective(a: Self, b: Self)
        ensures
            a.spec_code() == b.spec_code() ==> a == b,
    {
        reveal_strlit("HOUSING");
        reveal_strlit("COMMERCIAL");
        reveal_strlit("TEMPORARY");
        reveal_strlit("PROFESSIONAL");
        match (a, b) {
            (ContractType::Housing, ContractType::Commercial) => assert(a.spec_code().len() != b.spec_code().len()),
            (ContractType::Housing, ContractType::Temporary) => assert(a.spec_code().len() != b.spec_code().len()),
            (ContractType::Housing, ContractType::Professional) => assert(a.spec_code().len() != b.spec_code().len()),
            (ContractType::Commercial, ContractType::Housing) => assert(a.spec_code().len() != b.spec_code().len()),
            (ContractType::Commercial, ContractType::Temporary) => assert(a.spec_code().len() != b.spec_code().len()),
            (ContractType::Commercial, ContractType::Professional) => assert(a.spec_code().len() != b.spec_code().len()),
            (ContractType::Temporary, ContractType::Housing) => assert(a.spec_code().len() != b.spec_code().len()),
            (ContractType::Temporary, ContractType::Commercial) => assert(a.spec_code().len() != b.spec_code().len()),
            (ContractType::Temporary, ContractType::Professional) => assert(a.spec_code().len() != b.spec_code().len()),
            (ContractType::Professional, ContractType::Housing) => assert(a.spec_code().len() != b.spec_code().len()),
            (ContractType::Professional, ContractType::Commercial) => assert(a.spec_code().len() != b.spec_code().len()),
            (ContractType::Professional, ContractType::Temporary) => assert(a.spec_code().len() != b.spec_code().len()),
            _ => {},
        }
    }
}

/// What the rented property is used for.
#[derive(Clone, Copy, Debug, PartialEq, Eq, Structural)]
pub enum ContractDestination {
    Habitational,
    Commercial,
    Mixed,
}

impl ContractDestination {
    /// The name of the value in the database and on the wire.
    pub open spec fn spec_code(self) -> Seq<char> {
        match self {
            ContractDestination::Habitational => "HABITATIONAL"@,
            ContractDestination::Commercial => "COMMERCIAL"@,
            ContractDestination::Mixed => "MIXED"@,
        }
    }

    /// The name of the value in the database and on the wire.
    pub fn code(&self) -> (r: &'static str)
        ensures
            r@ == self.spec_code(),
    {
        match self {
            ContractDestination::Habitational => "HABITATIONAL",
            ContractDestination::Commercial => "COMMERCIAL",
            ContractDestination::Mixed => "MIXED",
        }
    }

    /// The value with the given name, if any.
    pub fn from_code(s: &str) -> (r: Option<Self>)
        ensures
            r matches Some(v) ==> v.spec_code() == s@,
            r is None ==> forall|v: Self| v.spec_code() != s@,
            forall|v: Self| #[trigger] v.spec_code() == s@ ==> r == Some(v),
    {
        let r = if str_eq(s, "HABITATIONAL") {
            Some(ContractDestination::Habitational)
        } else if str_eq(s, "COMMERCIAL") {
            Some(ContractDestination::Commercial)
        } else if str_eq(s, "MIXED") {
            Some(ContractDestination::Mixed)
        } else {
            None
        };
        proof {
            assert forall|v: Self| #[trigger] v.spec_code() == s@ implies r == Some(v) by {
                if let Some(w) = r {
                    Self::lemma_code_injective(v, w);
                }
            }
        }
        r
    }

    /// Distinct values have distinct names.
    pub proof fn lemma_code_injective(a: Self, b: Self)
        ensures
            a.spec_code() == b.spec_code() ==> a == b,
    {
        reveal_strlit("HABITATIONAL");
        reveal_strlit("COMMERCIAL");
        reveal_strlit("MIXED");
        match (a, b) {
            (ContractDestination::Habitational, ContractDestination::Commercial) => assert(a.spec_code().len() != b.spec_code().len()),
            (ContractDestination::Habitational, ContractDestination::Mixed) => assert(a.spec_code().len() != b.spec_code().len()),
            (ContractDestination::Commercial, ContractDestination::Habitational) => assert(a.spec_code().len() != b.spec_code().len()),
            (ContractDestination::Commercial, ContractDestination::Mixed) => assert(a.spec_code().len() != b.spec_code().len()),
            (ContractDestination::Mixed, ContractDestination::Habitational) => assert(a.spec_code().len() != b.spec_code().len()),
            (ContractDestination::Mixed, ContractDestination::Commercial) => assert(a.spec_code().len() != b.spec_code().len()),
            _ => {},
        }
    }
}

/// Part that a person plays in a contract.
#[derive(Clone, Copy, Debug, PartialEq, Eq, Structural)]
pub enum ParticipantRole {
    Landlord,
    Tenant,
    Guarantor,
    Attorney,
    Witness,
}

impl ParticipantRole {
    /// The name of the value in the database and on the wire.
    pub open spec fn spec_code(self) -> Seq<char> {
        match self {
            ParticipantRole::Landlord => "LANDLORD"@,
            ParticipantRole::Tenant => "TENANT"@,
            ParticipantRole::Guarantor => "GUARANTOR"@,
            ParticipantRole::Attorney => "ATTORNEY"@,
            ParticipantRole::Witness => "WITNESS"@,
        }
    }

    /// The name of the value in the database and on the wire.
    pub fn code(&self) -> (r: &'static str)
        ensures
            r@ == self.spec_code(),
    {
        match self {
            ParticipantRole::Landlord => "LANDLORD",
            ParticipantRole::Tenant => "TENANT",
            ParticipantRole::Guarantor => "GUARANTOR",
            ParticipantRole::Attorney => "ATTORNEY",
            ParticipantRole::Witness => "WITNESS",
        }
    }

    /// The value with the given name, if any.
    pub fn from_code(s: &str) -> (r: Option<Self>)
        ensures
            r matches Some(v) ==> v.spec_code() == s@,
            r is None ==> forall|v: Self| v.spec_code() != s@,
            forall|v: Self| #[trigger] v.spec_code() == s@ ==> r == Some(v),
    {
        let r = if str_eq(s, "LANDLORD") {
            Some(ParticipantRole::Landlord)
        } else if str_eq(s, "TENANT") {
            Some(ParticipantRole::Tenant)
        } else if str_eq(s, "GUARANTOR") {
            Some(ParticipantRole::Guarantor)
        } else if str_eq(s, "ATTORNEY") {
            Some(ParticipantRole::Attorney)
        } else if str_eq(s, "WITNESS") {
            Some(ParticipantRole::Witness)
        } else {
            None
        };
        proof {
            assert forall|v: Self| #[trigger] v.spec_code() == s@ implies r == Some(v) by {
                if let Some(w) = r {
                    Self::lemma_code_injective(v, w);
                }
            }
        }
        r
    }

    /// Distinct values have distinct names.
    pub proof fn lemma_code_injective(a: Self, b: Self)
        ensures
            a.spec_code() == b.spec_code() ==> a == b,
    {
        reveal_strlit("LANDLORD");
        reveal_strlit("TENANT");
        reveal_strlit("GUARANTOR");
        reveal_strlit("ATTORNEY");
        reveal_strlit("WITNESS");
        match (a, b) {
            (ParticipantRole::Landlord, ParticipantRole::Tenant) => assert(a.spec_code().len() != b.spec_code().len()),
            (ParticipantRole::Landlord, ParticipantRole::Guarantor) => assert(a.spec_code().len() != b.spec_code().len()),
            (ParticipantRole::Landlord, ParticipantRole::Attorney) => assert(a.spec_code()[0] != b.spec_code()[0]),
            (ParticipantRole::Landlord, ParticipantRole::Witness) => assert(a.spec_code().len() != b.spec_code().len()),
            (ParticipantRole::Tenant, ParticipantRole::Landlord) => assert(a.spec_code().len() != b.spec_code().len()),
            (ParticipantRole::Tenant, ParticipantRole::Guarantor) => assert(a.spec_code().len() != b.spec_code().len()),
            (ParticipantRole::Tenant, ParticipantRole::Attorney) => assert(a.spec_code().len() != b.spec_code().len()),
            (ParticipantRole::Tenant, ParticipantRole::Witness) => assert(a.spec_code().len() != b.spec_code().len()),
            (ParticipantRole::Guarantor, ParticipantRole::Landlord) => assert(a.spec_code().len() != b.spec_code().len()),
            (ParticipantRole::Guarantor, ParticipantRole::Tenant) => assert(a.spec_code().len() != b.spec_code().len()),
            (ParticipantRole::Guarantor, ParticipantRole::Attorney) => assert(a.spec_code().len() != b.spec_code().len()),
            (ParticipantRole::Guarantor, ParticipantRole::Witness) => assert(a.spec_code().len() != b.spec_code().len()),
            (ParticipantRole::Attorney, ParticipantRole::Landlord) => assert(a.spec_code()[0] != b.spec_code()[0]),
            (ParticipantRole::Attorney, ParticipantRole::Tenant) => assert(a.spec_code().len() != b.spec_code().len()),
            (ParticipantRole::Attorney, ParticipantRole::Guarantor) => assert(a.spec_code().len() != b.spec_code().len()),
            (ParticipantRole::Attorney, ParticipantRole::Witness) => assert(a.spec_code().len() != b.spec_code().len()),
            (ParticipantRole::Witness, ParticipantRole::Landlord) => assert(a.spec_code().len() != b.spec_code().len()),
            (ParticipantRole::Witness, ParticipantRole::Tenant) => assert(a.spec_code().len() != b.spec_code().len()),
            (ParticipantRole::Witness, ParticipantRole::Guarantor) => assert(a.spec_code().len() != b.spec_code().len()),
            (ParticipantRole::Witness, ParticipantRole::Attorney) => assert(a.spec_code().len() != b.spec_code().len()),
            _ => {},
        }
    }
}

/// Kind of guarantee that backs a participant.
#[derive(Clone, Copy, Debug, PartialEq, Eq, Structural)]
pub enum GuaranteeType {
    Property,
    Payslip,
    SuretyBond,
    Bank,
    Mixed,
    Other,
}

impl GuaranteeType {
    /// The name of the value in the database and on the wire.
    pub open spec fn spec_code(self) -> Seq<char> {
        match self {
            GuaranteeType::Property => "PROPERTY"@,
            GuaranteeType::Payslip => "PAYSLIP"@,
            GuaranteeType::SuretyBond => "SURETY_BOND"@,
            GuaranteeType::Bank => "BANK"@,
            GuaranteeType::Mixed => "MIXED"@,
            GuaranteeType::Other => "OTHER"@,
        }
    }

    /// The name of the value in the database and on the wire.
    pub fn code(&self) -> (r: &'static str)
        ensures
            r@ == self.spec_code(),
    {
        match self {
            GuaranteeType::Property => "PROPERTY",
            GuaranteeType::Payslip => "PAYSLIP",
            GuaranteeType::SuretyBond => "SURETY_BOND",
            GuaranteeType::Bank => "BANK",
            GuaranteeType::Mixed => "MIXED",
            GuaranteeType::Other => "OTHER",
        }
    }

    /// The value with the given name, if any.
    pub fn from_code(s: &str) -> (r: Option<Self>)
        ensures
            r matches Some(v) ==> v.spec_code() == s@,
            r is None ==> forall|v: Self| v.spec_code() != s@,
            forall|v: Self| #[trigger] v.spec_code() == s@ ==> r == Some(v),
    {
        let r = if str_eq(s, "PROPERTY") {
            Some(GuaranteeType::Property)
        } else if str_eq(s, "PAYSLIP") {
            Some(GuaranteeType::Payslip)
        } else if str_eq(s, "SURETY_BOND") {
            Some(GuaranteeType::SuretyBond)
        } else if str_eq(s, "BANK") {
            Some(GuaranteeType::Bank)
        } else if str_eq(s, "MIXED") {
            Some(GuaranteeType::Mixed)
        } else if str_eq(s, "OTHER") {
            Some(GuaranteeType::Other)
        } else {
            None
        };
        proof {
            assert forall|v: Self| #[trigger] v.spec_code() == s@ implies r == Some(v) by {
                if let Some(w) = r {
                    Self::lemma_code_injective(v, w);
                }
            }
        }
        r
    }

    /// Distinct values have distinct names.
    pub proof fn lemma_code_injective(a: Self, b: Self)
        ensures
            a.spec_code() == b.spec_code() ==> a == b,
    {
        reveal_strlit("PROPERTY");
        reveal_strlit("PAYSLIP");
        reveal_strlit("SURETY_BOND");
        reveal_strlit("BANK");
        reveal_strlit("MIXED");
        reveal_strlit("OTHER");
        match (a, b) {
            (GuaranteeType::Property, GuaranteeType::Payslip) => assert(a.spec_code().len() != b.spec_code().len()),
            (GuaranteeType::Property, GuaranteeType::SuretyBond) => assert(a.spec_code().len() != b.spec_code().len()),
            (GuaranteeType::Property, GuaranteeType::Bank) => assert(a.spec_code().len() != b.spec_code().len()),
            (GuaranteeType::Property, GuaranteeType::Mixed) => assert(a.spec_code().len() != b.spec_code().len()),
            (GuaranteeType::Property, GuaranteeType::Other) => assert(a.spec_code().len() != b.spec_code().len()),
            (GuaranteeType::Payslip, GuaranteeType::Property) => assert(a.spec_code().len() != b.spec_code().len()),
            (GuaranteeType::Payslip, GuaranteeType::SuretyBond) => assert(a.spec_code().len() != b.spec_code().len()),
            (GuaranteeType::Payslip, GuaranteeType::Bank) => assert(a.spec_code().len() != b.spec_code().len()),
            (GuaranteeType::Payslip, GuaranteeType::Mixed) => assert(a.spec_code().len() != b.spec_code().len()),
            (GuaranteeType::Payslip, GuaranteeType::Other) => assert(a.spec_code().len() != b.spec_code().len()),
            (GuaranteeType::SuretyBond, GuaranteeType::Property) => assert(a.spec_code().len() != b.spec_code().len()),
            (GuaranteeType::SuretyBond, GuaranteeType::Payslip) => assert(a.spec_code().len() != b.spec_code().len()),
            (GuaranteeType::SuretyBond, GuaranteeType::Bank) => assert(a.spec_code().len() != b.spec_code().len()),
            (GuaranteeType::SuretyBond, GuaranteeType::Mixed) => assert(a.spec_code().len() != b.spec_code().len()),
            (GuaranteeType::SuretyBond, GuaranteeType::Other) => assert(a.spec_code().len() != b.spec_code().len()),
            (GuaranteeType::Bank, GuaranteeType::Property) => assert(a.spec_code().len() != b.spec_code().len()),
            (GuaranteeType::Bank, GuaranteeType::Payslip) => assert(a.spec_code().len() != b.spec_code().len()),
            (GuaranteeType::Bank, GuaranteeType::SuretyBond) => assert(a.spec_code().len() != b.spec_code().len()),
            (GuaranteeType::Bank, GuaranteeType::Mixed) => assert(a.spec_code().len() != b.spec_code().len()),
            (GuaranteeType::Bank, GuaranteeType::Other) => assert(a.spec_code().len() != b.spec_code().len()),
            (GuaranteeType::Mixed, GuaranteeType::Property) => assert(a.spec_code().len() != b.spec_code().len()),
            (GuaranteeType::Mixed, GuaranteeType::Payslip) => assert(a.spec_code().len() != b.spec_code().len()),
            (GuaranteeType::Mixed, GuaranteeType::SuretyBond) => assert(a.spec_code().len() != b.spec_code().len()),
            (GuaranteeType::Mixed, GuaranteeType::Bank) => assert(a.spec_code().len() != b.spec_code().len()),
            (GuaranteeType::Mixed, GuaranteeType::Other) => assert(a.spec_code()[0] != b.spec_code()[0]),
            (GuaranteeType::Other, GuaranteeType::Property) => assert(a.spec_code().len() != b.spec_code().len()),
            (GuaranteeType::Other, GuaranteeType::Payslip) => assert(a.spec_code().len() != b.spec_code().len()),
            (GuaranteeType::Other, GuaranteeType::SuretyBond) => assert(a.spec_code().len() != b.spec_code().len()),
            (GuaranteeType::Other, GuaranteeType::Bank) => assert(a.spec_code().len() != b.spec_code().len()),
            (GuaranteeType::Other, GuaranteeType::Mixed) => assert(a.spec_code()[0] != b.spec_code()[0]),
            _ => {},
        }
    }
}

// ---------------------------------------------------------------------------
// Request shapes
// ---------------------------------------------------------------------------

/// Terms of a contract as a request gives them; missing flags are unset.
pub struct ContractTermsDto {
    pub allows_pets: Option<bool>,
    pub allows_sublease: Option<bool>,
    pub requires_inventory: Option<bool>,
    pub requires_insurance: Option<bool>,
    pub automatic_renewal: Option<bool>,
    pub permitted_activity: Option<String>,
    pub notice_days: Option<i32>,
    pub early_termination_penalty: Option<String>,
    pub observations: Option<String>,
}

/// A clause of a contract or template as a request gives it.
pub struct ClauseDto {
    pub display_order: i32,
    pub title: String,
    pub body: String,
    pub is_mandatory: Option<bool>,
    pub is_editable: Option<bool>,
    pub is_system: Option<bool>,
}

/// The stored flags of a clause: (mandatory, editable, system).
pub open spec fn clause_flags_spec(c: &ClauseDto) -> (bool, bool, bool) {
    (
        match c.is_mandatory { Some(b) => b, None => false },
        match c.is_editable { Some(b) => b, None => true },
        match c.is_system { Some(b) => b, None => false },
    )
}

impl ClauseDto {
    /// Flags stored for the clause: not mandatory, editable and not a system clause unless the
    /// request says otherwise.
    pub fn flags(&self) -> (r: (bool, bool, bool))
        ensures
            r == clause_flags_spec(self),
    {
        let m = match self.is_mandatory {
            Some(b) => b,
            None => false,
        };
        let e = match self.is_editable {
            Some(b) => b,
            None => true,
        };
        let y = match self.is_system {
            Some(b) => b,
            None => false,
        };
        (m, e, y)
    }
}

/// A clause of a template as stored.
pub struct TemplateClause {
    pub id: u128,
    pub tenant_id: u128,
    pub template_id: u128,
    pub display_order: i32,
    pub title: String,
    pub body: String,
    pub is_mandatory: bool,
    pub is_editable: bool,
    pub is_system: bool,
}

impl TemplateClause {
    /// The stored clause of a template for a requested clause: its order, title and body, and
    /// the flags that `ClauseDto::flags` gives.
    pub fn from_dto(id: u128, tenant_id: u128, template_id: u128, dto: ClauseDto) -> (r: TemplateClause)
        ensures
            r.id == id,
            r.tenant_id == tenant_id,
            r.template_id == template_id,
            r.display_order == dto.display_order,
            r.title == dto.title,
            r.body == dto.body,
            (r.is_mandatory, r.is_editable, r.is_system) == clause_flags_spec(&dto),
    {
        let (m, e, y) = dto.flags();
        TemplateClause {
            id,
            tenant_id,
            template_id,
            display_order: dto.display_order,
            title: dto.title,
            body: dto.body,
            is_mandatory: m,
            is_editable: e,
            is_system: y,
        }
    }
}

/// A guarantee offered by a participant, as a request gives it.
pub struct ParticipantGuaranteeDto {
    pub guarantee_type: GuaranteeType,
    pub income_amount: Option<Amount>,
    pub employer: Option<String>,
    pub guarantee_details: Option<String>,
    pub observations: Option<String>,
}

/// A participant of a contract (landlord, tenant, guarantor, ...), as a request gives it.
pub struct ContractParticipantDto {
    pub client_id: u128,
    pub p_role: ParticipantRole,
    pub percentage: Option<Amount>,
    pub is_main: Option<bool>,
    pub display_order: Option<i32>,
    pub observations: Option<String>,
    pub guarantees: Option<Vec<ParticipantGuaranteeDto>>,
}

/// A request to create a contract with its participants, terms and clauses.
pub struct CreateContractDtoV2 {
    pub property_id: u128,
    pub start_date: CalendarDate,
    pub end_date: CalendarDate,
    pub original_rent_amount: Amount,
    pub adjustment_method: Option<AdjustmentMethod>,
    pub adjustment_frequency: Option<AdjustmentFrequency>,
    pub automation_mode: Option<AutomationMode>,
    pub fixed_percentage: Option<Amount>,
    pub notification_days_before: Option<i32>,
    pub c_type: Option<ContractType>,
    pub c_destination: Option<ContractDestination>,
    pub jurisdiction: Option<String>,
    pub city: Option<String>,
    pub province: Option<String>,
    pub currency: Option<String>,
    pub deposit_amount: Option<Amount>,
    pub commission_amount: Option<Amount>,
    pub fees_amount: Option<Amount>,
    pub taxes_payer: Option<String>,
    pub services_payer: Option<String>,
    pub observations: Option<String>,
    pub parent_contract_id: Option<u128>,
    pub status: Option<String>,
    pub template_id: Option<u128>,
    pub participants: Vec<ContractParticipantDto>,
    pub terms: Option<ContractTermsDto>,
    pub clauses: Option<Vec<ClauseDto>>,
}

/// A request to create a contract template with its clauses.
pub struct CreateContractTemplateDto {
    pub name: String,
    pub description: Option<String>,
    pub c_type: ContractType,
    pub c_destination: ContractDestination,
    pub clauses: Vec<ClauseDto>,
}

/// A request to create a rental contract: the property, the term, the original rent and how it
/// is adjusted.
pub struct CreateContractDto {
    pub property_id: u128,
    pub start_date: CalendarDate,
    pub end_date: CalendarDate,
    pub original_rent_amount: Amount,
    pub adjustment_method: Option<AdjustmentMethod>,
    pub adjustment_frequency: Option<AdjustmentFrequency>,
    pub automation_mode: Option<AutomationMode>,
    pub fixed_percentage: Option<Amount>,
    pub notification_days_before: Option<i32>,
}

impl CreateContractDto {
    /// The installments created with the contract: those of `plan_installments` for its term and
    /// original rent.
    pub fn installments(&self) -> (r: Result<Vec<PlannedInstallment>, ScheduleError>)
        requires
            self.start_date.wf(),
            self.end_date.wf(),
        ensures
            r is Err <==> installment_due_dates_fail(self.start_date, self.end_date),
            r matches Ok(v) ==> {
                &&& is_schedule(self.start_date, self.end_date, v@.map_values(|p: PlannedInstallment| p.due_date))
                &&& forall|k: int| 0 <= k < v.len() ==> (#[trigger] v[k]).amount == self.original_rent_amount
                    && v[k].status == InstallmentStatus::Pending
            },
    {
        plan_installments(self.start_date, self.end_date, self.original_rent_amount)
    }
}

/// A request to propose a rent adjustment; it carries no fields.
pub struct ProposeAdjustmentDto {}

/// A request to reject or roll back a rent adjustment, with its reason.
pub struct RollbackAdjustmentDto {
    pub reason: String,
}

/// A request to approve a rent adjustment, optionally with another amount than the computed one.
pub struct ApproveAdjustmentDto {
    pub new_amount: Option<Amount>,
    pub notes: Option<String>,
}

/// A pending rent adjustment as the database reports it (`created_at` in milliseconds since the
/// Unix epoch).
pub struct PendingRecord {
    pub adjustment_id: u128,
    pub contract_id: u128,
    pub contract_number: String,
    pub tenant_name: Option<String>,
    pub current_rent: Option<Amount>,
    pub adjustment_percent: Option<Amount>,
    pub new_rent: Option<Amount>,
    pub effective_date: Option<CalendarDate>,
    pub created_at: Option<i64>,
}

/// A pending rent adjustment as the approval list shows it.
pub struct PendingAdjustmentDto {
    pub adjustment_id: u128,
    pub contract_id: u128,
    pub contract_number: String,
    pub tenant_name: String,
    pub current_rent: Option<Amount>,
    pub adjustment_percent: Option<Amount>,
    pub new_rent: Option<Amount>,
    pub effective_date: Option<CalendarDate>,
    pub created_at: Option<i64>,
}

/// The approval list: the pending adjustments and how many there are.
pub struct PendingAdjustmentsResponse {
    pub items: Vec<PendingAdjustmentDto>,
    pub total: i64,
}

/// The list entry of a pending adjustment: as recorded, with an empty tenant name when none is known.
pub open spec fn pending_entry_matches(r: PendingRecord, d: PendingAdjustmentDto) -> bool {
    &&& d.adjustment_id == r.adjustment_id
    &&& d.contract_id == r.contract_id
    &&& d.contract_number == r.contract_number
    &&& d.tenant_name@ == (match r.tenant_name { Some(n) => n@, None => Seq::<char>::empty() })
    &&& d.current_rent == r.current_rent
    &&& d.adjustment_percent == r.adjustment_percent
    &&& d.new_rent == r.new_rent
    &&& d.effective_date == r.effective_date
    &&& d.created_at == r.created_at
}

/// The approval list of the pending adjustments, in the order given.
pub fn pending_adjustments(records: Vec<PendingRecord>) -> (r: PendingAdjustmentsResponse)
    requires
        records.len() <= i64::MAX,
    ensures
        r.items.len() == records.len(),
        r.total == records.len(),
        forall|i: int| 0 <= i < records.len() ==> pending_entry_matches(records[i], #[trigger] r.items[i]),
{
    let ghost orig = records@;
    let mut items: Vec<PendingAdjustmentDto> = Vec::new();
    let mut rest = records;
    while rest.len() > 0
        invariant
            items.len() + rest.len() == orig.len(),
            rest@ == orig.skip(items.len() as int),
            forall|i: int| 0 <= i < items.len() ==> pending_entry_matches(orig[i], #[trigger] items[i]),
        decreases rest.len(),
    {
        let rec = rest.remove(0);
        let tenant_name = match rec.tenant_name {
            Some(t) => t,
            None => String::new(),
        };
        items.push(PendingAdjustmentDto {
            adjustment_id: rec.adjustment_id,
            contract_id: rec.contract_id,
            contract_number: rec.contract_number,
            tenant_name,
            current_rent: rec.current_rent,
            adjustment_percent: rec.adjustment_percent,
            new_rent: rec.new_rent,
            effective_date: rec.effective_date,
            created_at: rec.created_at,
        });
        assert(rest@ =~= orig.skip(items.len() as int));
    }
    let total = items.len() as i64;
    PendingAdjustmentsResponse { items, total }
}

/// Answer to a request to propose a rent adjustment: the endpoint is not offered yet.
pub fn propose_adjustment_status() -> (r: HttpStatus)
    ensures
        r == HttpStatus::NotImplemented,
{
    HttpStatus::NotImplemented
}

// ---------------------------------------------------------------------------
// Installment plan
// ---------------------------------------------------------------------------

/// One monthly installment of a new contract.
#[derive(Clone, Copy, Debug, PartialEq, Eq, Structural)]
pub struct PlannedInstallment {
    pub due_date: CalendarDate,
    pub amount: Amount,
    pub status: InstallmentStatus,
}

/// The installments created with a contract: one per billing period from `start` to `end`, due
/// as `installment_due_dates` says, each for the original rent and pending.
pub fn plan_installments(start: CalendarDate, end: CalendarDate, rent: Amount) -> (r: Result<
    Vec<PlannedInstallment>,
    ScheduleError,
>)
    requires
        start.wf(),
        end.wf(),
    ensures
        r is Err <==> installment_due_dates_fail(start, end),
        r matches Ok(v) ==> {
            &&& is_schedule(start, end, v@.map_values(|p: PlannedInstallment| p.due_date))
            &&& forall|k: int| 0 <= k < v.len() ==> (#[trigger] v[k]).amount == rent
                && v[k].status == InstallmentStatus::Pending
        },
{
    let dates = installment_due_dates(start, end);
    match dates {
        Err(e) => Err(e),
        Ok(ds) => {
            let mut out: Vec<PlannedInstallment> = Vec::new();
            let mut i: usize = 0;
            while i < ds.len()
                invariant
                    i <= ds.len(),
                    out.len() == i,
                    forall|k: int| 0 <= k < i ==> (#[trigger] out[k]).due_date == ds@[k]
                        && out[k].amount == rent && out[k].status == InstallmentStatus::Pending,
                decreases ds.len() - i,
            {
                out.push(PlannedInstallment { due_date: ds[i], amount: rent, status: InstallmentStatus::Pending });
                i += 1;
            }
            assert(out@.map_values(|p: PlannedInstallment| p.due_date) =~= ds@);
            Ok(out)
        },
    }
}

/// An installment of a contract as stored (times in milliseconds since the Unix epoch).
pub struct ContractInstallment {
    pub id: u128,
    pub tenant_id: u128,
    pub contract_id: u128,
    pub due_date: CalendarDate,
    pub amount: Amount,
    pub status: InstallmentStatus,
    pub created_at: Option<i64>,
    pub updated_at: Option<i64>,
}

impl ContractInstallment {
    /// The stored form of a planned installment of contract `contract_id`.
    pub fn from_plan(id: u128, tenant_id: u128, contract_id: u128, p: PlannedInstallment) -> (r: ContractInstallment)
        ensures
            r.id == id,
            r.tenant_id == tenant_id,
            r.contract_id == contract_id,
            r.due_date == p.due_date,
            r.amount == p.amount,
            r.status == p.status,
            r.created_at is None,
            r.updated_at is None,
    {
        ContractInstallment {
            id,
            tenant_id,
            contract_id,
            due_date: p.due_date,
            amount: p.amount,
            status: p.status,
            created_at: None,
            updated_at: None,
        }
    }
}

/// The schedule of `start..end` cannot be built: a billing period leaves the range of dates.
pub open spec fn installment_due_dates_fail(start: CalendarDate, end: CalendarDate) -> bool {
    exists|n: int|
        #[trigger] crate::dates::is_period_count(start, end, n) && n > 0
            && !crate::dates::year_in_range(crate::dates::period_year(start, n))
}

// ---------------------------------------------------------------------------
// Errors of contract creation
// ---------------------------------------------------------------------------

/// Status and error code of a failed contract creation: conflicts (`HTTP 409...`) are `409`,
/// missing data (`Se requiere...`) is a `400` validation error, anything else a `500`.
pub open spec fn contract_error_class(message: Seq<char>) -> (HttpStatus, Seq<char>) {
    if has_prefix(message, "HTTP 409"@) {
        (HttpStatus::Conflict, "CONFLICT"@)
    } else if has_prefix(message, "Se requiere"@) {
        (HttpStatus::BadRequest, "VALIDATION_ERROR"@)
    } else {
        (HttpStatus::InternalServerError, "INTERNAL_ERROR"@)
    }
}

/// Maps the message of a failed contract creation to its status and error code.
pub fn classify_contract_error(message: &str) -> (r: (HttpStatus, &'static str))
    ensures
        r.0 == contract_error_class(message@).0,
        r.1@ == contract_error_class(message@).1,
{
    if starts_with(message, "HTTP 409") {
        (HttpStatus::Conflict, "CONFLICT")
    } else if starts_with(message, "Se requiere") {
        (HttpStatus::BadRequest, "VALIDATION_ERROR")
    } else {
        (HttpStatus::InternalServerError, "INTERNAL_ERROR")
    }
}

/// Status and error code of a contract request from a session without a tenant.
pub fn missing_tenant_error() -> (r: (HttpStatus, &'static str))
    ensures
        r.0 == HttpStatus::BadRequest,
        r.1@ == "MISSING_TENANT"@,
{
    (HttpStatus::BadRequest, "MISSING_TENANT")
}

// ---------------------------------------------------------------------------
// Contract document
// ---------------------------------------------------------------------------

/// A participant as the contract document lists it: role code and client name.
pub struct DocumentParticipant {
    pub role: String,
    pub name: String,
}

/// Name of the last participant in `ps` with role `role`, if any.
pub open spec fn last_with_role(ps: Seq<(Seq<char>, Seq<char>)>, role: Seq<char>) -> Option<Seq<char>>
    decreases ps.len(),
{
    if ps.len() == 0 {
        None
    } else if ps.last().0 == role {
        Some(ps.last().1)
    } else {
        last_with_role(ps.drop_last(), role)
    }
}

pub open spec fn participant_views(ps: Seq<DocumentParticipant>) -> Seq<(Seq<char>, Seq<char>)> {
    ps.map_values(|p: DocumentParticipant| (p.role@, p.name@))
}

/// Name shown for a party: the last participant with its role, else `No especificado`.
pub open spec fn party_name(ps: Seq<DocumentParticipant>, role: Seq<char>) -> Seq<char> {
    match last_with_role(participant_views(ps), role) {
        Some(n) => n,
        None => "No especificado"@,
    }
}

/// The contract document as an HTML page: the parties, the property's address, the term, the
/// monthly rent (already formatted with two decimals) and the adjustment method.
pub open spec fn contract_html_text(
    landlord: Seq<char>,
    tenant: Seq<char>,
    property_address: Seq<char>,
    start_date: Seq<char>,
    end_date: Seq<char>,
    rent_text: Seq<char>,
    adjustment: Seq<char>,
) -> Seq<char> {
    "\n        <html>\n            <head><title>Contrato de Alquiler</title></head>\n            <body style=\"font-family: Arial, sans-serif; padding: 40px; line-height: 1.6;\">\n                <h1 style=\"text-align: center;\">CONTRATO DE LOCACIÓN</h1>\n                <p>En la ciudad de ..., a los ... días del mes de ..., se celebra el presente contrato de locación entre <strong>"@ + landlord + "</strong> y <strong>"@ + tenant + "</strong>.</p>\n                <h3>1. OBJETO</h3>\n                <p>El locador cede en locación el inmueble sito en <strong>"@ + property_address + "</strong>.</p>\n                <h3>2. PRECIO Y PLAZO</h3>\n                <p>El plazo de la locación es desde el "@ + start_date + " hasta el "@ + end_date + ". El canon locativo se fija en la suma de <strong>$"@ + rent_text + "</strong> mensuales.</p>\n                <h3>3. AJUSTE</h3>\n                <p>El alquiler se actualizará bajo el método <strong>"@ + adjustment + "</strong>.</p>\n                <br><br><br>\n                <div style=\"display: flex; justify-content: space-around;\">\n                    <div><hr>Firma Locador</div>\n                    <div><hr>Firma Locatario</div>\n                </div>\n            </body>\n        </html>\n        "@
}

/// The contract document as an HTML page (see `contract_html_text`).
pub fn contract_html(
    landlord: &str,
    tenant: &str,
    property_address: &str,
    start_date: &str,
    end_date: &str,
    rent_text: &str,
    adjustment: &str,
) -> (r: String)
    ensures
        r@ == contract_html_text(landlord@, tenant@, property_address@, start_date@, end_date@, rent_text@, adjustment@),
{
    let mut r = owned("\n        <html>\n            <head><title>Contrato de Alquiler</title></head>\n            <body style=\"font-family: Arial, sans-serif; padding: 40px; line-height: 1.6;\">\n                <h1 style=\"text-align: center;\">CONTRATO DE LOCACIÓN</h1>\n                <p>En la ciudad de ..., a los ... días del mes de ..., se celebra el presente contrato de locación entre <strong>");
    r.append(landlord);
    r.append("</strong> y <strong>");
    r.append(tenant);
    r.append("</strong>.</p>\n                <h3>1. OBJETO</h3>\n                <p>El locador cede en locación el inmueble sito en <strong>");
    r.append(property_address);
    r.append("</strong>.</p>\n                <h3>2. PRECIO Y PLAZO</h3>\n                <p>El plazo de la locación es desde el ");
    r.append(start_date);
    r.append(" hasta el ");
    r.append(end_date);
    r.append(". El canon locativo se fija en la suma de <strong>$");
    r.append(rent_text);
    r.append("</strong> mensuales.</p>\n                <h3>3. AJUSTE</h3>\n                <p>El alquiler se actualizará bajo el método <strong>");
    r.append(adjustment);
    r.append("</strong>.</p>\n                <br><br><br>\n                <div style=\"display: flex; justify-content: space-around;\">\n                    <div><hr>Firma Locador</div>\n                    <div><hr>Firma Locatario</div>\n                </div>\n            </body>\n        </html>\n        ");
    r
}

/// A text of the contract's data, or `default` when the data lack it.
pub open spec fn or_default(t: Option<String>, default: Seq<char>) -> Seq<char> {
    match t {
        Some(v) => v@,
        None => default,
    }
}

fn text_or(t: Option<String>, default: &str) -> (r: String)
    ensures
        r@ == or_default(t, default@),
{
    match t {
        Some(v) => v,
        None => owned(default),
    }
}

/// The contract document from the contract's data, where each field may be missing: the dates
/// and the address read `...` and the adjustment method `No especificado` when absent, and the
/// parties are the last landlord and tenant among the participants.
pub fn contract_document(
    participants: &Vec<DocumentParticipant>,
    property_address: Option<String>,
    start_date: Option<String>,
    end_date: Option<String>,
    rent_text: &str,
    adjustment_method: Option<String>,
) -> (r: String)
    ensures
        r@ == contract_html_text(
            party_name(participants@, "LANDLORD"@),
            party_name(participants@, "TENANT"@),
            or_default(property_address, "..."@),
            or_default(start_date, "..."@),
            or_default(end_date, "..."@),
            rent_text@,
            or_default(adjustment_method, "No especificado"@),
        ),
{
    let (landlord, tenant) = contract_parties(participants);
    let address = text_or(property_address, "...");
    let start = text_or(start_date, "...");
    let end = text_or(end_date, "...");
    let adjustment = text_or(adjustment_method, "No especificado");
    contract_html(
        landlord.as_str(),
        tenant.as_str(),
        address.as_str(),
        start.as_str(),
        end.as_str(),
        rent_text,
        adjustment.as_str(),
    )
}

/// `Content-Disposition` of the generated contract PDF: `contrato_<id>.pdf`.
pub fn contract_pdf_disposition(contract_id: u128) -> (r: String)
    ensures
        r@ == "attachment; filename=\"contrato_"@ + uuid_text(contract_id) + ".pdf\""@,
{
    let mut r = owned("attachment; filename=\"contrato_");
    let id = uuid_to_text(contract_id);
    r.append(id.as_str());
    r.append(".pdf\"");
    r
}

/// Landlord and tenant named in the contract document.
pub fn contract_parties(ps: &Vec<DocumentParticipant>) -> (r: (String, String))
    ensures
        r.0@ == party_name(ps@, "LANDLORD"@),
        r.1@ == party_name(ps@, "TENANT"@),
{
    let mut landlord = owned("No especificado");
    let mut tenant = owned("No especificado");
    let mut i: usize = 0;
    while i < ps.len()
        invariant
            i <= ps.len(),
            landlord@ == party_name(ps@.take(i as int), "LANDLORD"@),
            tenant@ == party_name(ps@.take(i as int), "TENANT"@),
        decreases ps.len() - i,
    {
        let ghost prev = ps@.take(i as int);
        assert(participant_views(ps@.take(i + 1)).drop_last() =~= participant_views(prev));
        assert(participant_views(ps@.take(i + 1)).last() == (ps@[i as int].role@, ps@[i as int].name@));
        if str_eq(ps[i].role.as_str(), "LANDLORD") {
            landlord = owned(ps[i].name.as_str());
        }
        if str_eq(ps[i].role.as_str(), "TENANT") {
            tenant = owned(ps[i].name.as_str());
        }
        i += 1;
    }
    assert(ps@.take(ps.len() as int) =~= ps@);
    (landlord, tenant)
}

} // verus!
