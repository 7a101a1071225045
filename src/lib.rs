//! Non-blocking connection of a unix-domain stream socket inside a cooperative
//! task scheduler: the decisions of the connect protocol, the registration
//! record shared with the event-delivery side, and the delay-drop guard.
pub mod connect;
pub mod delay_drop;
pub mod errno;
pub mod laws;
pub mod registration;
