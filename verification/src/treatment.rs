//! Logged and derived delivery events.
//!
//! A `Treatment` is one logged event: a bolus, a temp basal, or a
//! carbohydrate entry.  Decomposition output is the uniform `InsulinDose`
//! shape: one discrete insulin delta at one instant.

use vstd::prelude::*;
use crate::time::valid_time_millis;

verus! {

/// Largest insulin amount, in micro-units, this library computes with.
pub const MAX_INSULIN_MICRO: i64 = 1_000_000_000_000;

/// Largest basal rate or carb ratio, in thousandths, this library computes
/// with (1,000 units per hour, or 1,000 grams per unit).
pub const MAX_RATE_MILLI: i64 = 1_000_000;

/// Largest temp-basal duration, in minutes, this library computes with
/// (about two years).
pub const MAX_DURATION_MINUTES: i64 = 1_000_000;

/// Largest carbohydrate amount of one entry, in milligrams (100 kg).
pub const MAX_CARB_MILLIGRAMS: i64 = 100_000_000;

/// Where a carbohydrate entry was logged.
#[derive(Clone, Copy, PartialEq, Eq, Structural, Debug)]
pub enum CarbSource {
    /// Entered over the network (the default bucket).
    Network,
    /// Entered through the pump's bolus wizard.
    BolusWizard,
    /// Entered in a journal.
    Journal,
}

/// What kind of event a treatment records, with its quantities.
#[derive(Clone, Copy, PartialEq, Eq, Structural, Debug)]
pub enum TreatmentKind {
    /// A discrete insulin dose, in micro-units.
    Bolus { insulin_micro: i64 },
    /// A temporary override of the basal rate: rate in milli-units per hour,
    /// duration in minutes.
    TempBasal { rate_milli: i64, duration_minutes: i64 },
    /// A carbohydrate entry, in milligrams, with an optional source tag.
    Carbs { milligrams: i64, source: Option<CarbSource> },
}

/// One logged or derived event.  Immutable: new treatments are only ever
/// derived, never mutated in place.
pub struct Treatment {
    /// What happened and how much.
    pub kind: TreatmentKind,
    /// Resolved absolute instant, milliseconds since the Unix epoch (UTC).
    pub date: i64,
    /// Raw timestamp text, carried through unparsed.
    pub timestamp: Option<String>,
    /// Raw started-at text, carried through unparsed.
    pub started_at: Option<String>,
}

/// Mathematical image of a `Treatment`: the strings become character
/// sequences, everything else is carried as is.
pub ghost struct TreatmentView {
    pub kind: TreatmentKind,
    pub date: i64,
    pub timestamp: Option<Seq<char>>,
    pub started_at: Option<Seq<char>>,
}

impl View for Treatment {
    type V = TreatmentView;

    open spec fn view(&self) -> TreatmentView {
        TreatmentView {
            kind: self.kind,
            date: self.date,
            timestamp: match self.timestamp {
                Some(s) => Some(s@),
                None => None,
            },
            started_at: match self.started_at {
                Some(s) => Some(s@),
                None => None,
            },
        }
    }
}

/// Quantity bounds under which decomposition arithmetic cannot overflow.
pub open spec fn wf_kind(k: TreatmentKind) -> bool {
    match k {
        TreatmentKind::Bolus { insulin_micro } => -MAX_INSULIN_MICRO <= insulin_micro
            <= MAX_INSULIN_MICRO,
        TreatmentKind::TempBasal { rate_milli, duration_minutes } => -MAX_RATE_MILLI <= rate_milli
            <= MAX_RATE_MILLI && -MAX_DURATION_MINUTES <= duration_minutes
            <= MAX_DURATION_MINUTES,
        TreatmentKind::Carbs { milligrams, source } => -MAX_CARB_MILLIGRAMS <= milligrams
            <= MAX_CARB_MILLIGRAMS,
    }
}

impl TreatmentView {
    /// Bounds under which decomposition arithmetic cannot overflow.
    pub open spec fn wf(self) -> bool {
        valid_time_millis(self.date) && wf_kind(self.kind)
    }

    /// Whether the view records a carbohydrate entry with a positive amount.
    pub open spec fn spec_has_carbs(self) -> bool {
        match self.kind {
            TreatmentKind::Carbs { milligrams, source } => milligrams > 0,
            _ => false,
        }
    }
}

impl Treatment {
    /// Bounds under which decomposition arithmetic cannot overflow.
    pub open spec fn wf(self) -> bool {
        self@.wf()
    }

    /// A bolus of `insulin_micro` micro-units at `date`.
    pub fn bolus(insulin_micro: i64, date: i64) -> (r: Treatment)
        ensures
            r@ == (TreatmentView {
                kind: TreatmentKind::Bolus { insulin_micro },
                date,
                timestamp: None,
                started_at: None,
            }),
    {
        Treatment {
            kind: TreatmentKind::Bolus { insulin_micro },
            date,
            timestamp: None,
            started_at: None,
        }
    }

    /// A temp basal of `rate_milli` milli-units per hour for
    /// `duration_minutes` minutes, starting at `date`.
    pub fn temp_basal(rate_milli: i64, duration_minutes: i64, date: i64) -> (r: Treatment)
        ensures
            r@ == (TreatmentView {
                kind: TreatmentKind::TempBasal { rate_milli, duration_minutes },
                date,
                timestamp: None,
                started_at: None,
            }),
    {
        Treatment {
            kind: TreatmentKind::TempBasal { rate_milli, duration_minutes },
            date,
            timestamp: None,
            started_at: None,
        }
    }

    /// A carbohydrate entry of `milligrams` milligrams at `date`, with no
    /// source tag.
    pub fn carbs(milligrams: i64, date: i64) -> (r: Treatment)
        ensures
            r@ == (TreatmentView {
                kind: TreatmentKind::Carbs { milligrams, source: None },
                date,
                timestamp: None,
                started_at: None,
            }),
    {
        Treatment {
            kind: TreatmentKind::Carbs { milligrams, source: None },
            date,
            timestamp: None,
            started_at: None,
        }
    }

    /// A carbohydrate entry of `milligrams` milligrams at `date`, tagged with
    /// the source it was logged through.
    pub fn carbs_with_source(milligrams: i64, source: CarbSource, date: i64) -> (r: Treatment)
        ensures
            r@ == (TreatmentView {
                kind: TreatmentKind::Carbs { milligrams, source: Some(source) },
                date,
                timestamp: None,
                started_at: None,
            }),
    {
        Treatment {
            kind: TreatmentKind::Carbs { milligrams, source: Some(source) },
            date,
            timestamp: None,
            started_at: None,
        }
    }

    /// The resolved absolute instant of the event.
    pub fn effective_date(&self) -> (r: i64)
        ensures
            r == self@.date,
    {
        self.date
    }

    /// The insulin amount, for a bolus-shaped treatment.
    pub fn insulin(&self) -> (r: Option<i64>)
        ensures
            r == (match self@.kind {
                TreatmentKind::Bolus { insulin_micro } => Some(insulin_micro),
                _ => None::<i64>,
            }),
    {
        match self.kind {
            TreatmentKind::Bolus { insulin_micro } => Some(insulin_micro),
            _ => None,
        }
    }

    /// The temp-basal rate, for a temp-basal-shaped treatment.
    pub fn rate(&self) -> (r: Option<i64>)
        ensures
            r == (match self@.kind {
                TreatmentKind::TempBasal { rate_milli, duration_minutes } => Some(rate_milli),
                _ => None::<i64>,
            }),
    {
        match self.kind {
            TreatmentKind::TempBasal { rate_milli, duration_minutes } => Some(rate_milli),
            _ => None,
        }
    }

    /// The temp-basal duration, for a temp-basal-shaped treatment.
    pub fn duration(&self) -> (r: Option<i64>)
        ensures
            r == (match self@.kind {
                TreatmentKind::TempBasal { rate_milli, duration_minutes } => Some(duration_minutes),
                _ => None::<i64>,
            }),
    {
        match self.kind {
            TreatmentKind::TempBasal { rate_milli, duration_minutes } => Some(duration_minutes),
            _ => None,
        }
    }

    /// The carbohydrate amount, for a carb-shaped treatment.
    pub fn carb_milligrams(&self) -> (r: Option<i64>)
        ensures
            r == (match self@.kind {
                TreatmentKind::Carbs { milligrams, source } => Some(milligrams),
                _ => None::<i64>,
            }),
    {
        match self.kind {
            TreatmentKind::Carbs { milligrams, source } => Some(milligrams),
            _ => None,
        }
    }

    /// Whether the treatment records a carbohydrate entry with a positive
    /// amount.
    pub fn has_carbs(&self) -> (r: bool)
        ensures
            r == self@.spec_has_carbs(),
    {
        match self.kind {
            TreatmentKind::Carbs { milligrams, source } => milligrams > 0,
            _ => false,
        }
    }
}

impl Clone for Treatment {
    fn clone(&self) -> (r: Treatment)
        ensures
            r@ == self@,
    {
        Treatment {
            kind: self.kind,
            date: self.date,
            timestamp: self.timestamp.clone(),
            started_at: self.started_at.clone(),
        }
    }
}

/// The views of a sequence of treatments, element by element.
pub open spec fn treatment_views(s: Seq<Treatment>) -> Seq<TreatmentView> {
    s.map_values(|t: Treatment| t@)
}

/// One discrete insulin delta, the uniform shape of decomposition output.
pub struct InsulinDose {
    /// Insulin delta in micro-units; negative where delivery ran below the
    /// scheduled basal.
    pub insulin_micro: i64,
    /// Instant the delta takes effect, milliseconds since the Unix epoch.
    pub date: i64,
    /// Raw timestamp text carried over from the source event, if any.
    pub timestamp: Option<String>,
    /// Raw started-at text carried over from the source event, if any.
    pub started_at: Option<String>,
}

/// Mathematical image of an `InsulinDose`.
pub ghost struct InsulinDoseView {
    pub insulin_micro: i64,
    pub date: i64,
    pub timestamp: Option<Seq<char>>,
    pub started_at: Option<Seq<char>>,
}

impl View for InsulinDose {
    type V = InsulinDoseView;

    open spec fn view(&self) -> InsulinDoseView {
        InsulinDoseView {
            insulin_micro: self.insulin_micro,
            date: self.date,
            timestamp: match self.timestamp {
                Some(s) => Some(s@),
                None => None,
            },
            started_at: match self.started_at {
                Some(s) => Some(s@),
                None => None,
            },
        }
    }
}

impl Clone for InsulinDose {
    fn clone(&self) -> (r: InsulinDose)
        ensures
            r@ == self@,
    {
        InsulinDose {
            insulin_micro: self.insulin_micro,
            date: self.date,
            timestamp: self.timestamp.clone(),
            started_at: self.started_at.clone(),
        }
    }
}

/// The views of a sequence of doses, element by element.
pub open spec fn dose_views(s: Seq<InsulinDose>) -> Seq<InsulinDoseView> {
    s.map_values(|d: InsulinDose| d@)
}

} // verus!
