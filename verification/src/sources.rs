//! One module per intelligence source, each following the same protocol:
//! build the request URL, classify the response, normalize the findings.

pub mod alienvault;
pub mod chaos;
pub mod crtsh;
