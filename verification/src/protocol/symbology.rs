//! Instrument lookups of the symbology service.
use vstd::prelude::*;
use crate::types::decimal::Decimal;

verus! {

/// Asks for instruments, all of them when no symbols are given.
#[derive(Debug, Clone)]
pub struct InstrumentsRequest {
    pub symbols: Option<Vec<String>>,
}

impl Default for InstrumentsRequest {
    /// Every instrument.
    fn default() -> (r: InstrumentsRequest)
        ensures
            r.symbols is None,
    {
        InstrumentsRequest { symbols: None }
    }
}

/// Instruments.
#[derive(Debug, Clone)]
pub struct InstrumentsResponse {
    pub instruments: Vec<Instrument>,
}

/// The trading parameters of an instrument.
#[derive(Debug, Clone)]
pub struct Instrument {
    pub symbol: String,
    pub multiplier: Decimal,
    pub tick_size: Decimal,
    pub min_order_quantity: Decimal,
}

} // verus!
