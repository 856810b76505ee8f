//! Contexts handed to the client's event callbacks.

use vstd::prelude::*;

verus! {

/// ConnectedEvent is a connected event context passed to `Client::on_connected` callback.
#[derive(Debug)]
pub struct ConnectedEvent<'a> {
    pub client_id: &'a str,
    pub version: &'a str,
    pub data: Vec<u8>,
}

/// ConnectingEvent is a connecting event context passed to `Client::on_connecting` callback.
#[derive(Debug)]
pub struct ConnectingEvent<'a> {
    pub code: u32,
    pub reason: &'a str,
}

/// DisconnectedEvent is a disconnected event context passed to `Client::on_disconnected` callback.
#[derive(Debug)]
pub struct DisconnectedEvent<'a> {
    pub code: u32,
    pub reason: &'a str,
}

/// SubscribedEvent is a subscribed event context passed to `Subscription::on_subscribed` callback.
#[derive(Debug)]
pub struct SubscribedEvent<'a> {
    pub channel: &'a str,
    pub data: Vec<u8>,
}

/// SubscribingEvent is a subscribing event context passed to `Subscription::on_subscribing` callback.
#[derive(Debug)]
pub struct SubscribingEvent<'a> {
    pub channel: &'a str,
    pub code: u32,
    pub reason: &'a str,
}

/// UnsubscribedEvent is a unsubscribed event context passed to `Subscription::on_unsubscribed` callback.
#[derive(Debug)]
pub struct UnsubscribedEvent<'a> {
    pub channel: &'a str,
    pub code: u32,
    pub reason: &'a str,
}

} // verus!
