//! Building user-facing notifications. Actually sending mail happens at the
//! application edge; what is built — and verified — here are the
//! notification values themselves.

use vstd::prelude::*;
use vstd::string::StringExecFns;

verus! {

/// An outbound email.
#[derive(Debug, Clone)]
pub struct EmailNotification {
    pub to: String,
    pub subject: String,
    pub body: String,
    pub is_html: bool,
}

/// An in-application trading notification for one user.
#[derive(Debug)]
pub struct TradingNotification {
    pub user_id: i64,
    pub notification_type: String,
    pub title: String,
    pub message: String,
    pub data: Option<serde_json::Value>,
}

/// Mathematical model of the notification configuration.
pub ghost struct NotificationConfigModel {
    pub smtp_host: Option<Seq<char>>,
    pub smtp_user: Option<Seq<char>>,
    pub smtp_password: Option<Seq<char>>,
}

/// The view of an optional string.
pub open spec fn opt_view(s: Option<String>) -> Option<Seq<char>> {
    match s {
        Some(v) => Some(v@),
        None => None,
    }
}

/// Holds the mail configuration and builds notifications.
pub struct NotificationService {
    smtp_host: Option<String>,
    smtp_user: Option<String>,
    smtp_password: Option<String>,
}

impl View for NotificationService {
    type V = NotificationConfigModel;

    closed spec fn view(&self) -> NotificationConfigModel {
        NotificationConfigModel {
            smtp_host: opt_view(self.smtp_host),
            smtp_user: opt_view(self.smtp_user),
            smtp_password: opt_view(self.smtp_password),
        }
    }
}

impl NotificationService {
    /// A service configured with the given SMTP settings, each optional.
    pub fn new(
        smtp_host: Option<String>,
        smtp_user: Option<String>,
        smtp_password: Option<String>,
    ) -> (s: NotificationService)
        ensures
            s@.smtp_host == opt_view(smtp_host),
            s@.smtp_user == opt_view(smtp_user),
            s@.smtp_password == opt_view(smtp_password),
    {
        NotificationService { smtp_host, smtp_user, smtp_password }
    }

    /// Build an in-application trading notification carrying exactly the
    /// given fields.
    pub fn create_trading_notification(
        &self,
        user_id: i64,
        notification_type: &str,
        title: &str,
        message: &str,
        data: Option<serde_json::Value>,
    ) -> (n: TradingNotification)
        ensures
            n.user_id == user_id,
            n.notification_type@ == notification_type@,
            n.title@ == title@,
            n.message@ == message@,
            n.data == data,
    {
        TradingNotification {
            user_id,
            notification_type: String::from_str(notification_type),
            title: String::from_str(title),
            message: String::from_str(message),
            data,
        }
    }
}

} // verus!
