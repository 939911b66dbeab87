//! Client core for the WebDriver protocol: symbolic keys and typing data, the
//! command model, response unwrapping, element handles, action sequences and
//! the session, each operation stated as the command it sends and the result
//! read from the response.
pub mod action_chain;
pub mod command;
pub mod error;
pub mod json;
pub mod keys;
pub mod response;
pub mod webdriver;
pub mod webelement;
