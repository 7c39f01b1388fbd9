//! A log collection pipeline: receivers turn input into events, operator
//! chains parse and reshape them, exporters batch and ship them.

pub mod text;
pub mod json;
pub mod time;
pub mod config;
pub mod event;
pub mod field_ref;
pub mod op_def;
pub mod operator;
pub mod field_op;
pub mod json_op;
pub mod kv_op;
pub mod regex_op;
pub mod severity_op;
pub mod timestamp_op;
pub mod chain_build;
pub mod metrics;
pub mod exporter;
pub mod hec_config;
pub mod splunk_hec;
pub mod s1_hec;
pub mod stdout_exporter;
pub mod checkpoint;
pub mod file_receiver;
pub mod editor_schema;
pub mod editor_doc;
pub mod editor_input;
pub mod editor_form;
pub mod editor_templates;
pub mod editor_app;
pub mod dashboard;
pub mod status;
pub mod pipeline;
pub mod error;
pub mod components;
