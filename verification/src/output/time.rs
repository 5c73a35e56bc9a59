//! How timestamps are written.

use vstd::prelude::*;

verus! {

/// The format of a timestamp column.
#[derive(Debug, PartialEq, Eq, Clone)]
pub enum TimeFormat {
    DefaultFormat,
    ISOFormat,
    LongISO,
    FullISO,
    Relative,
    /// A format of the user's own: one for files that were not touched
    /// recently, and maybe another for those that were.
    Custom { non_recent: String, recent: Option<String> },
}

/// The model of a `TimeFormat`.
pub ghost enum TimeFormatView {
    DefaultFormat,
    ISOFormat,
    LongISO,
    FullISO,
    Relative,
    Custom { non_recent: Seq<char>, recent: Option<Seq<char>> },
}

impl TimeFormat {
    /// A custom style holds no empty format.
    pub open spec fn wf(&self) -> bool {
        match *self {
            TimeFormat::Custom { non_recent, recent } => non_recent@.len() > 0 && (match recent {
                Some(format) => format@.len() > 0,
                None => true,
            }),
            _ => true,
        }
    }
}

impl View for TimeFormat {
    type V = TimeFormatView;

    open spec fn view(&self) -> TimeFormatView {
        match *self {
            TimeFormat::DefaultFormat => TimeFormatView::DefaultFormat,
            TimeFormat::ISOFormat => TimeFormatView::ISOFormat,
            TimeFormat::LongISO => TimeFormatView::LongISO,
            TimeFormat::FullISO => TimeFormatView::FullISO,
            TimeFormat::Relative => TimeFormatView::Relative,
            TimeFormat::Custom { non_recent, recent } => TimeFormatView::Custom {
                non_recent: non_recent@,
                recent: match recent {
                    Some(format) => Some(format@),
                    None => None,
                },
            },
        }
    }
}

} // verus!
