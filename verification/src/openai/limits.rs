//! Resource limits of the classifier.
use vstd::prelude::*;

verus! {

/// The event-name limit that applies unless the caller sets one.
pub const DEFAULT_MAX_EVENT_NAME_BYTES: usize = 256;

/// The payload limit that applies unless the caller sets one.
pub const DEFAULT_MAX_DATA_BYTES: usize = 64 * 1024;

/// The choice limit that applies unless the caller sets one.
pub const DEFAULT_MAX_CHOICES: usize = 128;

/// The highest event-name limit that a caller can set.
pub const HARD_MAX_EVENT_NAME_BYTES: usize = 4 * 1024;

/// The highest payload limit that a caller can set.
pub const HARD_MAX_DATA_BYTES: usize = 1024 * 1024;

/// The highest choice limit that a caller can set.
pub const HARD_MAX_CHOICES: usize = 1024;

/// Hard-bounded resource limits for OpenAI-compatible JSON classification.
///
/// Values supplied by callers are clamped to crate-level hard ceilings. A
/// limit of zero is raised to one byte/item. These limits only bound this
/// classifier; they cannot retroactively bound memory used by an SSE parser.
#[derive(Clone, Copy, Debug, Eq, Hash, PartialEq)]
pub struct ClassifierLimits {
    max_event_name_bytes: usize,
    max_data_bytes: usize,
    max_choices: usize,
}

/// The three limits.
pub struct LimitsView {
    /// The longest event name that is looked at, in bytes.
    pub max_event_name_bytes: nat,
    /// The longest payload that is looked at, in bytes.
    pub max_data_bytes: nat,
    /// The most choices that are looked at.
    pub max_choices: nat,
}

impl LimitsView {
    /// Whether every limit is positive and no higher than its hard ceiling.
    pub open spec fn in_bounds(self) -> bool {
        &&& 1 <= self.max_event_name_bytes <= HARD_MAX_EVENT_NAME_BYTES
        &&& 1 <= self.max_data_bytes <= HARD_MAX_DATA_BYTES
        &&& 1 <= self.max_choices <= HARD_MAX_CHOICES
    }

    /// The limit that takes effect when a caller asks for `value` under the
    /// ceiling `hard_max`: the nearest one between one and the ceiling.
    pub open spec fn clamped(value: nat, hard_max: nat) -> nat {
        if value < 1 {
            1
        } else if value > hard_max {
            hard_max
        } else {
            value
        }
    }

    /// The limits that apply unless the caller sets others.
    pub open spec fn standard() -> LimitsView {
        LimitsView {
            max_event_name_bytes: DEFAULT_MAX_EVENT_NAME_BYTES as nat,
            max_data_bytes: DEFAULT_MAX_DATA_BYTES as nat,
            max_choices: DEFAULT_MAX_CHOICES as nat,
        }
    }
}

impl View for ClassifierLimits {
    type V = LimitsView;

    closed spec fn view(&self) -> LimitsView {
        LimitsView {
            max_event_name_bytes: self.max_event_name_bytes as nat,
            max_data_bytes: self.max_data_bytes as nat,
            max_choices: self.max_choices as nat,
        }
    }
}

impl ClassifierLimits {
    #[verifier::type_invariant]
    spec fn bounded_limits(self) -> bool {
        self@.in_bounds()
    }

    /// Creates limits with a caller-selected JSON payload limit.
    ///
    /// The event-name and Chat Completions choice limits retain their defaults.
    pub fn new(max_data_bytes: usize) -> (limits: Self)
        ensures
            limits@ == (LimitsView {
                max_data_bytes: LimitsView::clamped(
                    max_data_bytes as nat,
                    HARD_MAX_DATA_BYTES as nat,
                ),
                ..LimitsView::standard()
            }),
    {
        ClassifierLimits {
            max_event_name_bytes: DEFAULT_MAX_EVENT_NAME_BYTES,
            max_data_bytes: bounded(max_data_bytes, HARD_MAX_DATA_BYTES),
            max_choices: DEFAULT_MAX_CHOICES,
        }
    }

    /// Sets the maximum UTF-8 byte length of the optional SSE event name.
    pub fn with_max_event_name_bytes(self, value: usize) -> (limits: Self)
        ensures
            limits@ == (LimitsView {
                max_event_name_bytes: LimitsView::clamped(
                    value as nat,
                    HARD_MAX_EVENT_NAME_BYTES as nat,
                ),
                ..self@
            }),
    {
        proof {
            use_type_invariant(&self);
        }
        ClassifierLimits {
            max_event_name_bytes: bounded(value, HARD_MAX_EVENT_NAME_BYTES),
            max_data_bytes: self.max_data_bytes,
            max_choices: self.max_choices,
        }
    }

    /// Sets the maximum number of Chat Completions choices inspected.
    pub fn with_max_choices(self, value: usize) -> (limits: Self)
        ensures
            limits@ == (LimitsView {
                max_choices: LimitsView::clamped(value as nat, HARD_MAX_CHOICES as nat),
                ..self@
            }),
    {
        proof {
            use_type_invariant(&self);
        }
        ClassifierLimits {
            max_event_name_bytes: self.max_event_name_bytes,
            max_data_bytes: self.max_data_bytes,
            max_choices: bounded(value, HARD_MAX_CHOICES),
        }
    }

    /// Returns the effective event-name byte limit.
    pub fn max_event_name_bytes(self) -> (limit: usize)
        ensures
            limit == self@.max_event_name_bytes,
            self@.in_bounds(),
    {
        proof {
            use_type_invariant(&self);
        }
        self.max_event_name_bytes
    }

    /// Returns the effective JSON payload byte limit.
    pub fn max_data_bytes(self) -> (limit: usize)
        ensures
            limit == self@.max_data_bytes,
            self@.in_bounds(),
    {
        proof {
            use_type_invariant(&self);
        }
        self.max_data_bytes
    }

    /// Returns the effective Chat Completions choice limit.
    pub fn max_choices(self) -> (limit: usize)
        ensures
            limit == self@.max_choices,
            self@.in_bounds(),
    {
        proof {
            use_type_invariant(&self);
        }
        self.max_choices
    }
}

impl Default for ClassifierLimits {
    fn default() -> (limits: Self)
        ensures
            limits@ == LimitsView::standard(),
    {
        ClassifierLimits {
            max_event_name_bytes: DEFAULT_MAX_EVENT_NAME_BYTES,
            max_data_bytes: DEFAULT_MAX_DATA_BYTES,
            max_choices: DEFAULT_MAX_CHOICES,
        }
    }
}

/// Clamps a requested limit to one at least and `hard_max` at most.
pub fn bounded(value: usize, hard_max: usize) -> (limit: usize)
    ensures
        limit == LimitsView::clamped(value as nat, hard_max as nat),
{
    if value == 0 {
        1
    } else if value > hard_max {
        hard_max
    } else {
        value
    }
}

/// Limits are clamped, not refused: a request within bounds takes effect as it
/// is, any request ends up within bounds, and asking for what is in effect
/// changes nothing.
pub proof fn limits_are_clamped(value: nat, hard_max: nat)
    requires
        hard_max >= 1,
    ensures
        1 <= LimitsView::clamped(value, hard_max) <= hard_max,
        1 <= value <= hard_max ==> LimitsView::clamped(value, hard_max) == value,
        value == 0 ==> LimitsView::clamped(value, hard_max) == 1,
        value > hard_max ==> LimitsView::clamped(value, hard_max) == hard_max,
        LimitsView::clamped(LimitsView::clamped(value, hard_max), hard_max) == LimitsView::clamped(
            value,
            hard_max,
        ),
{
}

} // verus!
