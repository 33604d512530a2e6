//! One translator per family of requests.
pub mod network;
pub mod system;
pub mod firewall;
pub mod git;
pub mod user;
pub mod stiva;
pub mod phylax;
pub mod package;
pub mod marketplace;
pub mod knowledge;
pub mod tron;
pub mod yeoman;
pub mod agnostic;
pub mod bullshift;
pub mod jalwa;
pub mod photis;
pub mod delta;
pub mod edge;
pub mod mneme;
pub mod rasa;
pub mod shruti;
pub mod synapse;
pub mod tazama;
