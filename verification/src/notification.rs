//! The notification plugin: it raises a configured notification for every
//! measurement it receives and forwards the measurement.
use vstd::prelude::*;

use crate::measurement::Measurement;

verus! {

/// The configuration of the notification plugin.
pub struct Config {
    /// The name of the plugin to forward messages to
    pub forward_to: String,
    /// The name of the plugin to send notifications to
    pub notify: String,
    /// The type of the notification to raise
    pub raise: NotificationType,
    /// The message to attach to the notification
    pub raise_message: String,
}

#[derive(Debug, Clone, Copy, PartialEq, Eq, Structural)]
pub enum NotificationType {
    Info,
    Warning,
    Error,
}

/// The level of a notification.
#[derive(Debug, Clone, Copy, PartialEq, Eq, Structural)]
pub enum NotificationLevel {
    Info,
    Warning,
    Error,
}

/// A notification: a level and a message.
#[derive(Debug)]
pub struct Notification {
    pub level: NotificationLevel,
    pub message: String,
}

impl Notification {
    pub fn info(message: String) -> (n: Notification)
        ensures
            n.level == NotificationLevel::Info,
            n.message == message,
    {
        Notification { level: NotificationLevel::Info, message }
    }

    pub fn warning(message: String) -> (n: Notification)
        ensures
            n.level == NotificationLevel::Warning,
            n.message == message,
    {
        Notification { level: NotificationLevel::Warning, message }
    }

    pub fn error(message: String) -> (n: Notification)
        ensures
            n.level == NotificationLevel::Error,
            n.message == message,
    {
        Notification { level: NotificationLevel::Error, message }
    }
}

/// The level that a notification type raises.
pub open spec fn level_of(t: NotificationType) -> NotificationLevel {
    match t {
        NotificationType::Info => NotificationLevel::Info,
        NotificationType::Warning => NotificationLevel::Warning,
        NotificationType::Error => NotificationLevel::Error,
    }
}

impl NotificationType {
    /// A notification of this type with the given message.
    pub fn into_notification(self, message: String) -> (n: Notification)
        ensures
            n.level == level_of(self),
            n.message == message,
    {
        match self {
            NotificationType::Info => Notification::info(message),
            NotificationType::Warning => Notification::warning(message),
            NotificationType::Error => Notification::error(message),
        }
    }
}

/// What the plugin sends for one measurement: first the notification to the
/// plugin to notify, then the measurement itself to the plugin to forward to.
#[derive(Debug)]
pub struct NotificationActions {
    pub notification: Notification,
    pub forward: Measurement,
}

pub struct NotificationPlugin {
    pub target_addr: String,
    pub notify_addr: String,
    pub raise: NotificationType,
    pub raise_msg: String,
}

impl NotificationPlugin {
    pub fn new(target_addr: String, notify_addr: String, raise: NotificationType, raise_msg: String) -> (p: Self)
        ensures
            p.target_addr == target_addr,
            p.notify_addr == notify_addr,
            p.raise == raise,
            p.raise_msg == raise_msg,
    {
        NotificationPlugin { target_addr, notify_addr, raise, raise_msg }
    }

    /// For every measurement: the configured notification, and the
    /// measurement unchanged.
    pub fn handle_message(&self, message: Measurement) -> (a: NotificationActions)
        ensures
            a.notification.level == level_of(self.raise),
            a.notification.message@ == self.raise_msg@,
            a.forward == message,
    {
        NotificationActions {
            notification: self.raise.into_notification(self.raise_msg.clone()),
            forward: message,
        }
    }
}

pub struct NotificationPluginBuilder;

impl NotificationPluginBuilder {
    pub fn kind_name() -> (s: &'static str)
        ensures
            s@ == "notification"@,
    {
        "notification"
    }

    /// Builds the plugin that a configuration describes.
    pub fn instantiate(config: Config) -> (p: NotificationPlugin)
        ensures
            p.target_addr == config.forward_to,
            p.notify_addr == config.notify,
            p.raise == config.raise,
            p.raise_msg == config.raise_message,
    {
        NotificationPlugin::new(config.forward_to, config.notify, config.raise, config.raise_message)
    }
}

/// Each notification type raises a notification of its own level, and
/// distinct types raise distinct levels.
pub proof fn lemma_levels_distinct(a: NotificationType, b: NotificationType)
    ensures
        level_of(a) == level_of(b) <==> a == b,
{
}


/// Each notification type raises the level of the same name.
pub proof fn lemma_levels_by_name()
    ensures
        level_of(NotificationType::Info) == NotificationLevel::Info,
        level_of(NotificationType::Warning) == NotificationLevel::Warning,
        level_of(NotificationType::Error) == NotificationLevel::Error,
{
}

} // verus!
