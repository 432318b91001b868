//! Values that requests, responses and headers share.

use vstd::prelude::*;

verus! {

/// The protocol version of a message.
#[derive(Clone, Copy, Debug, PartialEq, Eq)]
pub enum Version {
    /// Version 2.0, the one in use.
    Two,
    /// Any other major and minor number.
    Other(i32, i32),
}

impl DeepView for Version {
    type V = Version;

    open spec fn deep_view(&self) -> Version {
        *self
    }
}

/// A transport protocol.
#[derive(Clone, Debug, PartialEq, Eq)]
pub enum Transport {
    UDP,
    TCP,
    SCTP,
    TLS,
    /// Any other transport, verbatim.
    Extension(String),
}

/// What a [`Transport`] holds, as a mathematical value.
pub enum TransportView {
    UDP,
    TCP,
    SCTP,
    TLS,
    Extension(Seq<char>),
}

impl DeepView for Transport {
    type V = TransportView;

    open spec fn deep_view(&self) -> TransportView {
        match *self {
            Transport::UDP => TransportView::UDP,
            Transport::TCP => TransportView::TCP,
            Transport::SCTP => TransportView::SCTP,
            Transport::TLS => TransportView::TLS,
            Transport::Extension(x0) => TransportView::Extension(x0.deep_view()),
        }
    }
}

/// The kind of user that a URI names.
#[derive(Clone, Debug, PartialEq, Eq)]
pub enum User {
    Phone,
    IP,
    /// Any other kind, verbatim.
    Other(String),
}

/// What a [`User`] holds, as a mathematical value.
pub enum UserView {
    Phone,
    IP,
    Other(Seq<char>),
}

impl DeepView for User {
    type V = UserView;

    open spec fn deep_view(&self) -> UserView {
        match *self {
            User::Phone => UserView::Phone,
            User::IP => UserView::IP,
            User::Other(x0) => UserView::Other(x0.deep_view()),
        }
    }
}

/// A request method: what a request asks for, what a response answers, or what a server can handle.
#[derive(Clone, Debug, PartialEq, Eq)]
pub enum Method {
    /// Sets up a session.
    Invite,
    /// Confirms the reception of a final response.
    Ack,
    /// Asks a server for its capabilities.
    Options,
    /// Ends a session.
    Bye,
    /// Gives up a pending request.
    Cancel,
    /// Registers contact information.
    Register,
    /// Any other method, verbatim.
    Extension(String),
}

/// What a [`Method`] holds, as a mathematical value.
pub enum MethodView {
    Invite,
    Ack,
    Options,
    Bye,
    Cancel,
    Register,
    Extension(Seq<char>),
}

impl DeepView for Method {
    type V = MethodView;

    open spec fn deep_view(&self) -> MethodView {
        match *self {
            Method::Invite => MethodView::Invite,
            Method::Ack => MethodView::Ack,
            Method::Options => MethodView::Options,
            Method::Bye => MethodView::Bye,
            Method::Cancel => MethodView::Cancel,
            Method::Register => MethodView::Register,
            Method::Extension(x0) => MethodView::Extension(x0.deep_view()),
        }
    }
}

} // verus!
