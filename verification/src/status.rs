//! The status vocabularies of the gateway and their canonical counterparts.
//!
//! Each vocabulary is a closed enumeration with a default. The gateway
//! writes a status as an upper-case word; a word it is not known to write
//! is read as the default.

use vstd::prelude::*;
use vstd::std_specs::convert::FromSpecImpl;
use crate::enums;

verus! {

/// Whether two texts are the same, character by character.
fn same_text(a: &str, b: &str) -> (same: bool)
    ensures
        same == (a@ == b@),
{
    let a_owned: String = a.to_owned();
    let b_owned: String = b.to_owned();
    a_owned == b_owned
}

/// Status of a card payment as the gateway reports it in
/// `card_details.status`.
#[derive(Clone, Copy, Debug, PartialEq, Eq, Structural)]
pub enum SquarePaymentStatus {
    Captured,
    Voided,
    Failed,
    Authorized,
}

impl Default for SquarePaymentStatus {
    /// The gateway documents `AUTHORIZED` as the status of a payment it
    /// says nothing else about.
    fn default() -> (status: Self)
        ensures
            status == SquarePaymentStatus::Authorized,
    {
        SquarePaymentStatus::Authorized
    }
}

impl SquarePaymentStatus {
    /// The canonical attempt status that stands for this gateway status.
    pub open spec fn attempt_status(self) -> enums::AttemptStatus {
        match self {
            SquarePaymentStatus::Captured => enums::AttemptStatus::Charged,
            SquarePaymentStatus::Voided => enums::AttemptStatus::Voided,
            SquarePaymentStatus::Failed => enums::AttemptStatus::Failure,
            SquarePaymentStatus::Authorized => enums::AttemptStatus::Authorized,
        }
    }

    /// The word the gateway writes for this status.
    pub open spec fn spec_wire_name(self) -> Seq<char> {
        match self {
            SquarePaymentStatus::Captured => "CAPTURED"@,
            SquarePaymentStatus::Voided => "VOIDED"@,
            SquarePaymentStatus::Failed => "FAILED"@,
            SquarePaymentStatus::Authorized => "AUTHORIZED"@,
        }
    }

    /// The status that the word `name` stands for: the default for a word
    /// the gateway is not known to write.
    pub open spec fn spec_from_wire_name(name: Seq<char>) -> SquarePaymentStatus {
        if name == "CAPTURED"@ {
            SquarePaymentStatus::Captured
        } else if name == "VOIDED"@ {
            SquarePaymentStatus::Voided
        } else if name == "FAILED"@ {
            SquarePaymentStatus::Failed
        } else {
            SquarePaymentStatus::Authorized
        }
    }

    /// Writes the status as the gateway does.
    pub fn wire_name(self) -> (name: &'static str)
        ensures
            name@ == self.spec_wire_name(),
    {
        match self {
            SquarePaymentStatus::Captured => "CAPTURED",
            SquarePaymentStatus::Voided => "VOIDED",
            SquarePaymentStatus::Failed => "FAILED",
            SquarePaymentStatus::Authorized => "AUTHORIZED",
        }
    }

    /// Reads a status as the gateway writes it. Never fails: a word the
    /// gateway is not known to write gives the default status.
    pub fn from_wire_name(name: &str) -> (status: Self)
        ensures
            status == Self::spec_from_wire_name(name@),
    {
        if same_text(name, "CAPTURED") {
            SquarePaymentStatus::Captured
        } else if same_text(name, "VOIDED") {
            SquarePaymentStatus::Voided
        } else if same_text(name, "FAILED") {
            SquarePaymentStatus::Failed
        } else {
            SquarePaymentStatus::Authorized
        }
    }

    /// Every status is read back from the word written for it. So the four
    /// words differ from one another, and each status can be told from its
    /// word alone.
    pub proof fn lemma_wire_name_round_trip(status: SquarePaymentStatus)
        ensures
            Self::spec_from_wire_name(status.spec_wire_name()) == status,
    {
        reveal_strlit("CAPTURED");
        reveal_strlit("VOIDED");
        reveal_strlit("FAILED");
        reveal_strlit("AUTHORIZED");
        assert("CAPTURED"@.len() == 8 && "AUTHORIZED"@.len() == 10);
        assert("VOIDED"@[0] == 'V' && "FAILED"@[0] == 'F');
    }

    /// Whether `name` is a word the gateway writes for one of the statuses.
    pub open spec fn spec_is_wire_name(name: Seq<char>) -> bool {
        exists|status: SquarePaymentStatus| #[trigger] status.spec_wire_name() == name
    }

    /// Tells whether `name` is a word the gateway is known to write, so
    /// that a caller can report a word that [`Self::from_wire_name`] reads
    /// as the default.
    pub fn is_wire_name(name: &str) -> (known: bool)
        ensures
            known == Self::spec_is_wire_name(name@),
    {
        proof {
            Self::lemma_known_words(name@);
        }
        same_text(name, "CAPTURED") || same_text(name, "VOIDED") || same_text(name, "FAILED")
            || same_text(name, "AUTHORIZED")
    }

    /// The words the gateway is known to write are the four that stand
    /// for a status, and no others.
    pub proof fn lemma_known_words(name: Seq<char>)
        ensures
            Self::spec_is_wire_name(name) <==> (name == "CAPTURED"@ || name == "VOIDED"@ || name
                == "FAILED"@ || name == "AUTHORIZED"@),
    {
        if name == "CAPTURED"@ {
            assert(SquarePaymentStatus::Captured.spec_wire_name() == name);
        }
        if name == "VOIDED"@ {
            assert(SquarePaymentStatus::Voided.spec_wire_name() == name);
        }
        if name == "FAILED"@ {
            assert(SquarePaymentStatus::Failed.spec_wire_name() == name);
        }
        if name == "AUTHORIZED"@ {
            assert(SquarePaymentStatus::Authorized.spec_wire_name() == name);
        }
    }

    /// A word is read and written back unchanged exactly when the gateway
    /// is known to write it.
    pub proof fn lemma_known_word_round_trip(name: Seq<char>)
        ensures
            Self::spec_is_wire_name(name) <==> Self::spec_from_wire_name(name).spec_wire_name()
                == name,
    {
        Self::lemma_known_words(name);
        Self::lemma_wire_name_round_trip(Self::spec_from_wire_name(name));
    }

    /// The attempt status read off a word of the gateway is fixed by the
    /// word: `CAPTURED` is charged, `VOIDED` voided, `FAILED` a failure, and
    /// every other word, `AUTHORIZED` among them, authorized.
    pub proof fn lemma_attempt_status_of_wire_name(name: Seq<char>)
        ensures
            Self::spec_from_wire_name(name).attempt_status() == (if name == "CAPTURED"@ {
                enums::AttemptStatus::Charged
            } else if name == "VOIDED"@ {
                enums::AttemptStatus::Voided
            } else if name == "FAILED"@ {
                enums::AttemptStatus::Failure
            } else {
                enums::AttemptStatus::Authorized
            }),
            Self::spec_from_wire_name(name).attempt_status()
                != enums::AttemptStatus::AuthenticationFailed,
    {
    }
}

impl From<SquarePaymentStatus> for enums::AttemptStatus {
    /// Normalizes a payment status of the gateway.
    fn from(item: SquarePaymentStatus) -> (status: Self)
        ensures
            status == item.attempt_status(),
    {
        match item {
            SquarePaymentStatus::Captured => Self::Charged,
            SquarePaymentStatus::Voided => Self::Voided,
            SquarePaymentStatus::Failed => Self::Failure,
            SquarePaymentStatus::Authorized => Self::Authorized,
        }
    }
}

impl FromSpecImpl<SquarePaymentStatus> for enums::AttemptStatus {
    open spec fn obeys_from_spec() -> bool {
        true
    }

    open spec fn from_spec(item: SquarePaymentStatus) -> Self {
        item.attempt_status()
    }
}

/// Status of a refund as the gateway reports it in `refund.status`.
#[derive(Clone, Copy, Debug, PartialEq, Eq, Structural)]
pub enum RefundStatus {
    COMPLETED,
    FAILED,
    REJECTED,
    PENDING,
}

impl Default for RefundStatus {
    /// The gateway documents `PENDING` as the status of a refund it says
    /// nothing else about.
    fn default() -> (status: Self)
        ensures
            status == RefundStatus::PENDING,
    {
        RefundStatus::PENDING
    }
}

impl RefundStatus {
    /// The canonical refund status that stands for this gateway status.
    pub open spec fn refund_status(self) -> enums::RefundStatus {
        match self {
            RefundStatus::COMPLETED => enums::RefundStatus::Success,
            RefundStatus::FAILED => enums::RefundStatus::Failure,
            RefundStatus::PENDING => enums::RefundStatus::Pending,
            RefundStatus::REJECTED => enums::RefundStatus::TransactionFailure,
        }
    }

    /// The word the gateway writes for this status.
    pub open spec fn spec_wire_name(self) -> Seq<char> {
        match self {
            RefundStatus::COMPLETED => "COMPLETED"@,
            RefundStatus::FAILED => "FAILED"@,
            RefundStatus::REJECTED => "REJECTED"@,
            RefundStatus::PENDING => "PENDING"@,
        }
    }

    /// The status that the word `name` stands for: the default for a word
    /// the gateway is not known to write.
    pub open spec fn spec_from_wire_name(name: Seq<char>) -> RefundStatus {
        if name == "COMPLETED"@ {
            RefundStatus::COMPLETED
        } else if name == "FAILED"@ {
            RefundStatus::FAILED
        } else if name == "REJECTED"@ {
            RefundStatus::REJECTED
        } else {
            RefundStatus::PENDING
        }
    }

    /// Writes the status as the gateway does.
    pub fn wire_name(self) -> (name: &'static str)
        ensures
            name@ == self.spec_wire_name(),
    {
        match self {
            RefundStatus::COMPLETED => "COMPLETED",
            RefundStatus::FAILED => "FAILED",
            RefundStatus::REJECTED => "REJECTED",
            RefundStatus::PENDING => "PENDING",
        }
    }

    /// Reads a status as the gateway writes it. Never fails: a word the
    /// gateway is not known to write gives the default status.
    pub fn from_wire_name(name: &str) -> (status: Self)
        ensures
            status == Self::spec_from_wire_name(name@),
    {
        if same_text(name, "COMPLETED") {
            RefundStatus::COMPLETED
        } else if same_text(name, "FAILED") {
            RefundStatus::FAILED
        } else if same_text(name, "REJECTED") {
            RefundStatus::REJECTED
        } else {
            RefundStatus::PENDING
        }
    }

    /// Every status is read back from the word written for it. So the four
    /// words differ from one another, and each status can be told from its
    /// word alone.
    pub proof fn lemma_wire_name_round_trip(status: RefundStatus)
        ensures
            Self::spec_from_wire_name(status.spec_wire_name()) == status,
    {
        reveal_strlit("COMPLETED");
        reveal_strlit("FAILED");
        reveal_strlit("REJECTED");
        reveal_strlit("PENDING");
        assert("COMPLETED"@.len() == 9 && "FAILED"@.len() == 6);
        assert("REJECTED"@.len() == 8 && "PENDING"@.len() == 7);
    }

    /// Whether `name` is a word the gateway writes for one of the statuses.
    pub open spec fn spec_is_wire_name(name: Seq<char>) -> bool {
        exists|status: RefundStatus| #[trigger] status.spec_wire_name() == name
    }

    /// Tells whether `name` is a word the gateway is known to write, so
    /// that a caller can report a word that [`Self::from_wire_name`] reads
    /// as the default.
    pub fn is_wire_name(name: &str) -> (known: bool)
        ensures
            known == Self::spec_is_wire_name(name@),
    {
        proof {
            Self::lemma_known_words(name@);
        }
        same_text(name, "COMPLETED") || same_text(name, "FAILED") || same_text(name, "REJECTED")
            || same_text(name, "PENDING")
    }

    /// The words the gateway is known to write are the four that stand
    /// for a status, and no others.
    pub proof fn lemma_known_words(name: Seq<char>)
        ensures
            Self::spec_is_wire_name(name) <==> (name == "COMPLETED"@ || name == "FAILED"@ || name
                == "REJECTED"@ || name == "PENDING"@),
    {
        if name == "COMPLETED"@ {
            assert(RefundStatus::COMPLETED.spec_wire_name() == name);
        }
        if name == "FAILED"@ {
            assert(RefundStatus::FAILED.spec_wire_name() == name);
        }
        if name == "REJECTED"@ {
            assert(RefundStatus::REJECTED.spec_wire_name() == name);
        }
        if name == "PENDING"@ {
            assert(RefundStatus::PENDING.spec_wire_name() == name);
        }
    }

    /// A word is read and written back unchanged exactly when the gateway
    /// is known to write it.
    pub proof fn lemma_known_word_round_trip(name: Seq<char>)
        ensures
            Self::spec_is_wire_name(name) <==> Self::spec_from_wire_name(name).spec_wire_name()
                == name,
    {
        Self::lemma_known_words(name);
        Self::lemma_wire_name_round_trip(Self::spec_from_wire_name(name));
    }

    /// The refund status read off a word of the gateway is fixed by the
    /// word: `COMPLETED` is a success, `FAILED` a failure, `REJECTED` a
    /// failure of the transaction, and every other word, `PENDING` among
    /// them, pending.
    pub proof fn lemma_refund_status_of_wire_name(name: Seq<char>)
        ensures
            Self::spec_from_wire_name(name).refund_status() == (if name == "COMPLETED"@ {
                enums::RefundStatus::Success
            } else if name == "FAILED"@ {
                enums::RefundStatus::Failure
            } else if name == "REJECTED"@ {
                enums::RefundStatus::TransactionFailure
            } else {
                enums::RefundStatus::Pending
            }),
    {
    }
}

impl From<RefundStatus> for enums::RefundStatus {
    /// Normalizes a refund status of the gateway.
    fn from(item: RefundStatus) -> (status: Self)
        ensures
            status == item.refund_status(),
    {
        match item {
            RefundStatus::COMPLETED => Self::Success,
            RefundStatus::FAILED => Self::Failure,
            RefundStatus::PENDING => Self::Pending,
            RefundStatus::REJECTED => Self::TransactionFailure,
        }
    }
}

impl FromSpecImpl<RefundStatus> for enums::RefundStatus {
    open spec fn obeys_from_spec() -> bool {
        true
    }

    open spec fn from_spec(item: RefundStatus) -> Self {
        item.refund_status()
    }
}

} // verus!
