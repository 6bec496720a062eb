//! A power menu: a fixed registry of power actions, the icon each one shows,
//! and the rules that turn a click or a key release into a shell command.
pub mod action;
pub mod dispatch;
pub mod registry;
