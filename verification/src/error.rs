//! What can go wrong, and how it is told.

use crate::ids::{DestinationHash, LinkId};
use crate::text::{decimal, decimal_text, hex_encode, hex_text};
use vstd::prelude::*;
use vstd::string::*;

verus! {

/// What can go wrong.
#[derive(Debug)]
pub enum Error {
    /// A connection was requested to a destination that has not been announced.
    NoAnnouncement { destination: DestinationHash },
    /// The node could not do what it was asked to.
    Node { cause: String },
    /// The requestor was gone when it was to be told of a missing announcement.
    RefusalUndelivered { destination: DestinationHash },
    /// The requestor was gone when it was to be told that no link could be set up.
    FailureUndelivered { cause: String },
    /// A destination has a listener already.
    ListenerExists { destination: DestinationHash },
    /// The requestor was gone when it was to be told that its destination has a listener already.
    DuplicateUndelivered { destination: DestinationHash },
    /// The requestor was gone when its listener was ready.
    ListenerUndelivered,
    /// The node could not accept a link.
    LinkNotAccepted { cause: String },
    /// The requestor was gone when its stream was ready.
    StreamUndelivered,
    /// The link was closed before it was established.
    LinkClosed,
    /// The requestor was gone when it was to be told that its link was closed.
    ClosureUndelivered,
    /// Bytes came in on a link that has no stream.
    StreamMissing { link: LinkId, resource: [u8; 32], bytes: u64 },
    /// Bytes came in on a link whose stream was dropped.
    StreamDropped { link: LinkId, resource: [u8; 32], bytes: u64 },
    /// The node could not send bytes on a link.
    ResourceNotSent { cause: String },
    /// A client looked up an address that has not been announced.
    NotAnnounced,
    /// The address that a mapping forwards to is no socket address.
    InvalidForwardAddress { address: String, cause: String },
    /// The identity file does not hold an identity.
    InvalidIdentity { cause: String },
    /// The file of mappings could not be read. The path is given as it is to be shown.
    UnreadableMappings { path: String, cause: String },
    /// The file of mappings does not hold mappings.
    InvalidMappings { cause: String },
    /// The address that a mapping forwards to could not be reached.
    TargetUnreachable { target: String, cause: String },
}

impl Error {
    /// The text of the error.
    pub open spec fn text(self) -> Seq<char> {
        match self {
            Error::NoAnnouncement { destination } => {
                "no announcement received yet for destination "@ + destination.text()
            },
            Error::Node { cause } => cause@,
            Error::RefusalUndelivered { destination } => {
                "error trying to send send error back to connection requestor: "@
                    + "no announcement received yet for destination "@ + destination.text()
            },
            Error::FailureUndelivered { cause } => {
                "error when trying to send error back to connection requestor: "@ + cause@
            },
            Error::ListenerExists { destination } => {
                "Listener already exists for destination "@ + destination.text()
            },
            Error::DuplicateUndelivered { destination } => {
                "error trying to send error response back to listener requestor: "@
                    + "Listener already exists for destination "@ + destination.text()
            },
            Error::ListenerUndelivered => {
                "error trying to send error response back to listener requestor"@
            },
            Error::LinkNotAccepted { cause } => "error when trying to accept link: "@ + cause@,
            Error::StreamUndelivered => {
                "error trying to send reticulum stream back to connection requestor"@
            },
            Error::LinkClosed => "link closed"@,
            Error::ClosureUndelivered => {
                "could not send response back to connection requestor: "@ + "link closed"@
            },
            Error::StreamMissing { link, resource, bytes } => {
                "link "@ + link.text() + ": resource "@ + hex_text(resource@) + ": dropping "@
                    + decimal_text(bytes as nat)
                    + " received bytes because sender to stream doesn't exist"@
            },
            Error::StreamDropped { link, resource, bytes } => {
                "link "@ + link.text() + ": resource "@ + hex_text(resource@) + ": dropping "@
                    + decimal_text(bytes as nat) + " received bytes because stream was dropped"@
            },
            Error::ResourceNotSent { cause } => "sending resource: "@ + cause@,
            Error::NotAnnounced => "did not receive an announcement for that address yet"@,
            Error::InvalidForwardAddress { address, cause } => {
                "Invalid forward address '"@ + address@ + "': "@ + cause@
            },
            Error::InvalidIdentity { cause } => "Failed to parse identity: "@ + cause@,
            Error::UnreadableMappings { path, cause } => {
                "Failed to read mappings file "@ + path@ + ": "@ + cause@
            },
            Error::InvalidMappings { cause } => "Failed to parse mappings JSON: "@ + cause@,
            Error::TargetUnreachable { target, cause } => {
                "Failed to connect to target "@ + target@ + ": "@ + cause@
            },
        }
    }

    /// The text of the error.
    pub fn message(&self) -> (r: String)
        ensures
            r@ == self.text(),
    {
        match self {
            Error::NoAnnouncement { destination } => {
                "no announcement received yet for destination ".to_owned()
                    .concat(destination.to_hex_string().as_str())
            },
            Error::Node { cause } => cause.clone(),
            Error::RefusalUndelivered { destination } => {
                "error trying to send send error back to connection requestor: ".to_owned()
                    .concat("no announcement received yet for destination ")
                    .concat(destination.to_hex_string().as_str())
            },
            Error::FailureUndelivered { cause } => {
                "error when trying to send error back to connection requestor: ".to_owned()
                    .concat(cause.as_str())
            },
            Error::ListenerExists { destination } => {
                "Listener already exists for destination ".to_owned()
                    .concat(destination.to_hex_string().as_str())
            },
            Error::DuplicateUndelivered { destination } => {
                "error trying to send error response back to listener requestor: ".to_owned()
                    .concat("Listener already exists for destination ")
                    .concat(destination.to_hex_string().as_str())
            },
            Error::ListenerUndelivered => {
                "error trying to send error response back to listener requestor".to_owned()
            },
            Error::LinkNotAccepted { cause } => {
                "error when trying to accept link: ".to_owned()
                    .concat(cause.as_str())
            },
            Error::StreamUndelivered => {
                "error trying to send reticulum stream back to connection requestor".to_owned()
            },
            Error::LinkClosed => "link closed".to_owned(),
            Error::ClosureUndelivered => {
                "could not send response back to connection requestor: ".to_owned()
                    .concat("link closed")
            },
            Error::StreamMissing { link, resource, bytes } => {
                "link ".to_owned()
                    .concat(link.to_hex_string().as_str())
                    .concat(": resource ")
                    .concat(hex_encode(resource.as_slice()).as_str())
                    .concat(": dropping ")
                    .concat(decimal(*bytes).as_str())
                    .concat(" received bytes because sender to stream doesn't exist")
            },
            Error::StreamDropped { link, resource, bytes } => {
                "link ".to_owned()
                    .concat(link.to_hex_string().as_str())
                    .concat(": resource ")
                    .concat(hex_encode(resource.as_slice()).as_str())
                    .concat(": dropping ")
                    .concat(decimal(*bytes).as_str())
                    .concat(" received bytes because stream was dropped")
            },
            Error::ResourceNotSent { cause } => {
                "sending resource: ".to_owned()
                    .concat(cause.as_str())
            },
            Error::NotAnnounced => {
                "did not receive an announcement for that address yet".to_owned()
            },
            Error::InvalidForwardAddress { address, cause } => {
                "Invalid forward address '".to_owned()
                    .concat(address.as_str())
                    .concat("': ")
                    .concat(cause.as_str())
            },
            Error::InvalidIdentity { cause } => {
                "Failed to parse identity: ".to_owned()
                    .concat(cause.as_str())
            },
            Error::UnreadableMappings { path, cause } => {
                "Failed to read mappings file ".to_owned()
                    .concat(path.as_str())
                    .concat(": ")
                    .concat(cause.as_str())
            },
            Error::InvalidMappings { cause } => {
                "Failed to parse mappings JSON: ".to_owned()
                    .concat(cause.as_str())
            },
            Error::TargetUnreachable { target, cause } => {
                "Failed to connect to target ".to_owned()
                    .concat(target.as_str())
                    .concat(": ")
                    .concat(cause.as_str())
            },
        }
    }
}

} // verus!
