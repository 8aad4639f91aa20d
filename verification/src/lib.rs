//! Conversion of an FCU configuration document into the JSON description of
//! the CBus event states it defines.
//!
//! [`MergModuleDataSet::populate`] reads the XML document into a dataset,
//! [`CBusInterface::new`] keeps the user events that their own node raises,
//! and [`CBusInterface::pretty_print`] renders them as JSON text. The XML
//! reader and the JSON printer are outside crates; what is built on them,
//! the binding of elements to typed records and the choice of the events,
//! is verified.

pub mod cbus_event_state;
pub mod decimal;
pub mod fcu_module_data;
pub mod fields;
pub mod filtering;
pub mod json_text;
pub mod records;
pub mod scalars;
pub mod xml_events;

pub use cbus_event_state::{CBusInterface, CbusState, State};
pub use fcu_module_data::{LoadError, MergModuleDataSet, UserEvent};
