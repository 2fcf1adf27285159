use vstd::prelude::*;

verus! {

/// Fields shared by every transcript record.
pub struct SessionEntryBase {
    pub uuid: String,
    pub timestamp: String,
    pub session_id: Option<String>,
}

/// A message typed by the user.
pub struct UserMessage {
    pub role: String,
    pub content: String,
}

/// The string-valued top-level fields of a tool invocation's arguments,
/// in the order they were written.
pub struct ToolInput {
    pub fields: Vec<(String, String)>,
}

/// One item of an assistant message.
pub enum MessageContent {
    Text { text: String },
    ToolUse { id: String, name: String, input: ToolInput },
    ToolResult { tool_use_id: String, content: String, is_error: Option<bool> },
}

/// A message written by the agent.
pub struct AssistantMessage {
    pub model: String,
    pub id: String,
    pub role: String,
    pub content: Vec<MessageContent>,
    pub stop_reason: Option<String>,
    pub stop_sequence: Option<String>,
}

/// One transcript record, as far as status classification reads it.
#[allow(inconsistent_fields)]
pub enum SessionEntry {
    User { base: SessionEntryBase, message: UserMessage },
    Assistant { base: SessionEntryBase, message: AssistantMessage },
    Other { base: SessionEntryBase },
}

/// The value of the first field named `key`, if any.
pub open spec fn field_value(fields: Seq<(String, String)>, key: Seq<char>) -> Option<Seq<char>>
    decreases fields.len(),
{
    if fields.len() == 0 {
        None
    } else {
        let before = field_value(fields.drop_last(), key);
        if before is Some {
            before
        } else if fields.last().0@ == key {
            Some(fields.last().1@)
        } else {
            None
        }
    }
}

impl ToolInput {
    /// The value of the first field named `key`, if any.
    pub open spec fn value_of(&self, key: Seq<char>) -> Option<Seq<char>> {
        field_value(self.fields@, key)
    }

    /// Arguments with no string fields.
    pub fn new() -> (r: ToolInput)
        ensures
            r.fields@.len() == 0,
    {
        ToolInput { fields: Vec::new() }
    }

    /// These arguments with one more field appended.
    pub fn with_field(self, key: &str, value: &str) -> (r: ToolInput)
        ensures
            r.fields@.len() == self.fields@.len() + 1,
            r.fields@.drop_last() == self.fields@,
            r.fields@.last().0@ == key@,
            r.fields@.last().1@ == value@,
    {
        let mut fields = self.fields;
        fields.push((String::from_str(key), String::from_str(value)));
        proof {
            assert(fields@.drop_last() =~= self.fields@);
        }
        ToolInput { fields }
    }

    /// Looks up the first field named `key`.
    pub fn get(&self, key: &str) -> (r: Option<&String>)
        ensures
            match r {
                Some(v) => self.value_of(key@) == Some(v@),
                None => self.value_of(key@) is None,
            },
    {
        let mut i: usize = 0;
        while i < self.fields.len()
            invariant
                i <= self.fields@.len(),
                field_value(self.fields@.subrange(0, i as int), key@) is None,
            decreases self.fields@.len() - i,
        {
            let ghost next = self.fields@.subrange(0, i + 1);
            proof {
                assert(next.drop_last() =~= self.fields@.subrange(0, i as int));
            }
            if crate::text::str_eq(self.fields[i].0.as_str(), key) {
                proof {
                    lemma_field_value_extends(self.fields@, i as int + 1, key@);
                }
                return Some(&self.fields[i].1);
            }
            i = i + 1;
        }
        proof {
            assert(self.fields@.subrange(0, i as int) =~= self.fields@);
        }
        None
    }
}

/// Once a prefix has a match, every longer prefix has the same one.
pub proof fn lemma_field_value_extends(fields: Seq<(String, String)>, n: int, key: Seq<char>)
    requires
        0 < n <= fields.len(),
        field_value(fields.subrange(0, n), key) is Some,
    ensures
        field_value(fields, key) == field_value(fields.subrange(0, n), key),
    decreases fields.len() - n,
{
    if n < fields.len() {
        let longer = fields.subrange(0, n + 1);
        assert(longer.drop_last() =~= fields.subrange(0, n));
        lemma_field_value_extends(fields, n + 1, key);
    } else {
        assert(fields.subrange(0, n) =~= fields);
    }
}

} // verus!
