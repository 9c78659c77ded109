//! A small web site's server logic: the article listing, the text
//! submission endpoint, and the settings and error replies of the request
//! pipeline.

pub mod articles;
pub mod pipeline;
pub mod submission;
