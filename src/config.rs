use vstd::prelude::*;

verus! {

/// The whole configuration: the feeds to poll.
#[derive(Debug, Clone, Default)]
pub struct Config {
    pub feeds: Vec<ConfigFeed>,
}

/// One feed to poll.
#[derive(Debug, Clone)]
pub struct ConfigFeed {
    /// Unique name of the feed; stored with each of its items.
    pub id: String,
    /// Where the feed document is fetched from.
    pub rss_url: String,
    /// Seconds between two polls.
    pub interval: u64,
    /// Regex whose first match in an entry's raw id becomes the stored id.
    pub guid_regex: Option<String>,
    pub receivers: Vec<ConfigFeedReceiver>,
    /// `User-Agent` header sent with the fetch, if any.
    pub user_agent: Option<String>,
    /// Parse the document as Atom instead of RSS.
    pub atom: Option<bool>,
}

/// One notification target of a feed.
#[derive(Debug, Clone)]
pub struct ConfigFeedReceiver {
    pub receiver_type: ConfigFeedReceiverType,
    pub discord: ConfigFeedDiscordReceiver,
}

/// The kinds of notification target.
#[derive(Debug, Clone, Copy, PartialEq, Eq)]
pub enum ConfigFeedReceiverType {
    Discord,
}

/// A Discord webhook and the templates of the message posted to it.
#[derive(Debug, Clone)]
pub struct ConfigFeedDiscordReceiver {
    pub webhook_url: String,
    /// Template of the message text.
    pub content: Option<String>,
    pub embeds: Vec<ConfigFeedDiscordReceiverEmbed>,
    /// Rules tried in order; the first that applies to an item replaces the
    /// webhook and the content template for it.
    pub overrides: Vec<ConfigFeedDiscordReceiverOverride>,
}

/// A rule that redirects or rewords the message of an item whose variable
/// `field` has a value that `regex` matches.
#[derive(Debug, Clone)]
pub struct ConfigFeedDiscordReceiverOverride {
    pub regex: String,
    pub field: String,
    pub webhook_url: Option<String>,
    pub content: Option<String>,
}

/// Templates of one embed.
#[derive(Debug, Clone)]
pub struct ConfigFeedDiscordReceiverEmbed {
    pub title: Option<String>,
    pub description: Option<String>,
    pub fields: Vec<ConfigFeedDiscordReceiverEmbedField>,
    pub footer: Option<String>,
    pub image: Option<String>,
    pub thumbnail: Option<String>,
    pub url: Option<String>,
}

/// Templates of one embed field.
#[derive(Debug, Clone)]
pub struct ConfigFeedDiscordReceiverEmbedField {
    pub name: String,
    pub value: String,
    pub inline: bool,
}

} // verus!
