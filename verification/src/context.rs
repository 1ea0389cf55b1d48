//! The key/value store that hooks and the task body use to pass data along.
use vstd::hash_map::StringHashMap;
use vstd::prelude::*;

verus! {

/// A string-to-string store. Keys are unique and the last write to a key wins.
///
/// The store is a plain value: whoever shares it between concurrent
/// executions guards it with a lock of their own and holds that lock for one
/// `get` or one `set` at a time.
pub struct Context {
    data: StringHashMap<String>,
}

impl View for Context {
    type V = Map<Seq<char>, Seq<char>>;

    closed spec fn view(&self) -> Map<Seq<char>, Seq<char>> {
        self.data@.map_values(|value: String| value@)
    }
}

impl Context {
    /// An empty store.
    pub fn new() -> (ctx: Context)
        ensures
            ctx@ == Map::<Seq<char>, Seq<char>>::empty(),
    {
        let ctx = Context { data: StringHashMap::new() };
        assert(ctx@ =~= Map::<Seq<char>, Seq<char>>::empty());
        ctx
    }

    /// The value last written under `key`, or `None` when the key was never
    /// written. A missing key is an ordinary outcome, not a failure.
    pub fn get(&self, key: &str) -> (found: Option<String>)
        ensures
            match found {
                Some(value) => self@.contains_key(key@) && value@ == self@[key@],
                None => !self@.contains_key(key@),
            },
    {
        match self.data.get(key) {
            Some(value) => Some(value.clone()),
            None => None,
        }
    }

    /// Writes `value` under `key`, replacing whatever was there. No other key
    /// changes.
    pub fn set(&mut self, key: &str, value: String)
        ensures
            final(self)@ == old(self)@.insert(key@, value@),
    {
        let owned_key = key.to_owned();
        self.data.insert(owned_key, value);
        assert(self@ =~= old(self)@.insert(key@, value@));
    }
}

impl Default for Context {
    fn default() -> (ctx: Context)
        ensures
            ctx@ == Map::<Seq<char>, Seq<char>>::empty(),
    {
        Context::new()
    }
}

/// A write followed by a read of the same key returns what was written:
/// where `after` is `before` with `value` written under `key`, and `found` is
/// what reading `key` from `after` gives, `found` is that value.
pub proof fn set_then_get(
    before: Context,
    key: Seq<char>,
    value: Seq<char>,
    after: Context,
    found: Option<String>,
)
    requires
        after@ == before@.insert(key, value),
        match found {
            Some(read) => after@.contains_key(key) && read@ == after@[key],
            None => !after@.contains_key(key),
        },
    ensures
        found is Some,
        found->0@ == value,
{
}

/// Two writes to different keys do not disturb each other, whoever makes
/// them: where a second write works on what a first write left, both values
/// can be read afterwards, and the store is the same as if the two had come
/// in the other order.
pub proof fn distinct_writes_are_kept(
    start: Context,
    first_key: Seq<char>,
    first_value: Seq<char>,
    between: Context,
    second_key: Seq<char>,
    second_value: Seq<char>,
    end: Context,
)
    requires
        first_key != second_key,
        between@ == start@.insert(first_key, first_value),
        end@ == between@.insert(second_key, second_value),
    ensures
        end@.contains_key(first_key),
        end@[first_key] == first_value,
        end@.contains_key(second_key),
        end@[second_key] == second_value,
        end@ == start@.insert(second_key, second_value).insert(first_key, first_value),
{
    assert(end@ =~= start@.insert(second_key, second_value).insert(first_key, first_value));
}

} // verus!
