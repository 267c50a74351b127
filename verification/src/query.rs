//! The one-pass query pipeline: select, filter, window, render.

use vstd::prelude::*;

use crate::dataset::CountryDataset;
use crate::record::DailyRecord;
use crate::render::line_spec;
use crate::render::render_records;
use crate::series::filter_confirmed;
use crate::series::filter_spec;
use crate::series::window;
use crate::series::window_spec;

verus! {

/// The records shown for a found country: the zero-confirmed records
/// dropped, then the most recent `n` kept (all of them when `n` is zero).
pub open spec fn shown_records(records: Seq<DailyRecord>, n: int) -> Seq<DailyRecord> {
    window_spec(filter_spec(records), n)
}

/// What one run prints.
pub enum QueryOutput {
    /// The country was found: one line per shown record, in order.
    Found(Vec<String>),
    /// The lookup missed: a header line, then every available country
    /// name, one per line, in insertion order.
    NotFound(Vec<String>),
}

/// Run one query against a decoded dataset: look the country up, and
/// either render its filtered, windowed records or list the available
/// countries.
pub fn run_query(d: &CountryDataset, country: &String, num_results: usize) -> (out: QueryOutput)
    ensures
        match out {
            QueryOutput::Found(lines) => {
                &&& d.spec_lookup(country@) is Some
                &&& lines@.len() == shown_records(
                    d.spec_lookup(country@).unwrap(),
                    num_results as int,
                ).len()
                &&& forall|i: int|
                    0 <= i < lines@.len() ==> lines@[i]@ == line_spec(
                        shown_records(d.spec_lookup(country@).unwrap(), num_results as int)[i],
                    )
            },
            QueryOutput::NotFound(lines) => {
                &&& d.spec_lookup(country@) is None
                &&& lines@.len() == 1 + d.spec_keys().len()
                &&& lines@[0]@ == "The following countries are available:"@
                &&& forall|i: int|
                    0 <= i < d.spec_keys().len() ==> lines@[i + 1]@ == d.spec_keys()[i]
            },
        },
{
    match d.select(country) {
        Some(records) => {
            let kept = filter_confirmed(records);
            let windowed = window(kept, num_results);
            QueryOutput::Found(render_records(&windowed))
        },
        None => QueryOutput::NotFound(d.available_countries()),
    }
}

} // verus!
