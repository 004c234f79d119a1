//! `<channel>` devices.
use vstd::prelude::*;
use crate::text::push_str;

verus! {

/// A `<channel>` element of a domain's `<devices>`.
#[derive(Debug, Clone)]
pub struct DeviceChannel {
    pub channel_type: String,
    pub target: Option<ChannelTarget>,
    pub source: Option<ChannelSource>,
}

/// The `<target>` of a channel.
#[derive(Debug, Clone)]
pub struct ChannelTarget {
    pub target_type: Option<String>,
    pub name: Option<String>,
    pub state: Option<String>,
}

/// The `<source>` of a channel.
#[derive(Debug, Clone)]
pub struct ChannelSource {
    pub mode: Option<String>,
    pub path: Option<String>,
}

impl DeviceChannel {
    /// The label of the channel: its target's name, else its target's type,
    /// else the channel type, after `Channel `.
    pub open spec fn display_name_spec(&self) -> Seq<char> {
        let what = match self.target {
            Some(t) => match t.name {
                Some(n) => n@,
                None => match t.target_type {
                    Some(tt) => tt@,
                    None => self.channel_type@,
                },
            },
            None => self.channel_type@,
        };
        "Channel "@ + what
    }

    pub fn display_name(&self) -> (r: String)
        ensures
            r@ == self.display_name_spec(),
    {
        let mut r = String::new();
        push_str(&mut r, "Channel ");
        if let Some(target) = &self.target {
            if let Some(name) = &target.name {
                push_str(&mut r, name.as_str());
                return r;
            }
            if let Some(tt) = &target.target_type {
                push_str(&mut r, tt.as_str());
                return r;
            }
        }
        push_str(&mut r, self.channel_type.as_str());
        r
    }
}

} // verus!
