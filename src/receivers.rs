use vstd::prelude::*;
use crate::config::{ConfigFeedReceiver, ConfigFeedReceiverType};
use crate::database::DatabaseFeedItem;
use crate::template::RenderError;
use self::discord::{
    effective_content, effective_webhook, message_is, message_renders, render_message, resolve_overrides,
    DiscordMessage,
};

pub mod discord;

verus! {

/// A rendered message and the webhook it is posted to.
#[derive(Debug, Clone)]
pub struct Notification {
    pub webhook_url: String,
    pub message: DiscordMessage,
}

/// Every template that receiver `c` renders for an item with variables `vars` renders.
pub open spec fn notification_renders(c: ConfigFeedReceiver, vars: Seq<(String, String)>) -> bool {
    match c.receiver_type {
        ConfigFeedReceiverType::Discord => message_renders(
            effective_content(c.discord, vars),
            c.discord.embeds@,
            vars,
        ),
    }
}

/// `r` is what receiver `c` makes of an item with variables `vars`.
pub open spec fn notification_is(r: Result<Notification, RenderError>, c: ConfigFeedReceiver, vars: Seq<(String, String)>) -> bool {
    &&& (r is Ok <==> notification_renders(c, vars))
    &&& match c.receiver_type {
        ConfigFeedReceiverType::Discord => r matches Ok(n) ==> n.webhook_url@ == effective_webhook(
            c.discord,
            vars,
        ) && message_is(n.message, effective_content(c.discord, vars), c.discord.embeds@, vars),
    }
}

/// Renders `item` for one receiver: the webhook and content template of the
/// first override rule that applies, where one does, and the embeds.
pub fn notification_for(receiver: &ConfigFeedReceiver, item: &DatabaseFeedItem) -> (r: Result<Notification, RenderError>)
    ensures
        notification_is(r, *receiver, item.variables@),
{
    match receiver.receiver_type {
        ConfigFeedReceiverType::Discord => {
            let (hook, content) = resolve_overrides(&receiver.discord, &item.variables);
            let message = render_message(content, &receiver.discord.embeds, &item.variables)?;
            Ok(Notification { webhook_url: hook.clone(), message })
        },
    }
}

} // verus!
