use vstd::prelude::*;

verus! {

/// One configured value: `key` in `section`.
pub struct SettingsEntry {
    pub section: String,
    pub key: String,
    pub value: String,
}

/// The value of `key` in `section`; a later entry overrides an earlier one.
pub open spec fn setting_of(entries: Seq<SettingsEntry>, section: Seq<char>, key: Seq<char>) -> Option<
    Seq<char>,
>
    decreases entries.len(),
{
    if entries.len() == 0 {
        None
    } else if entries.last().section@ == section && entries.last().key@ == key {
        Some(entries.last().value@)
    } else {
        setting_of(entries.drop_last(), section, key)
    }
}

/// The service's configuration: string values by section and key.
pub struct Settings {
    pub entries: Vec<SettingsEntry>,
}

impl Settings {
    pub open spec fn value(&self, section: Seq<char>, key: Seq<char>) -> Option<Seq<char>> {
        setting_of(self.entries@, section, key)
    }

    /// No values at all.
    pub fn empty() -> (r: Settings)
        ensures
            forall|s: Seq<char>, k: Seq<char>| #[trigger] r.value(s, k) is None,
    {
        Settings { entries: Vec::new() }
    }

    /// Sets `key` in `section`, replacing an earlier value.
    pub fn insert(&mut self, section: String, key: String, value: String)
        ensures
            final(self).value(section@, key@) == Some(value@),
            forall|s: Seq<char>, k: Seq<char>|
                !(s == section@ && k == key@) ==> #[trigger] final(self).value(s, k) == old(
                    self,
                ).value(s, k),
    {
        self.entries.push(SettingsEntry { section, key, value });
        assert(self.entries@.drop_last() =~= old(self).entries@);
    }

    /// The value of `key` in `section`, if configured.
    pub fn lookup(&self, section: &str, key: &str) -> (r: Option<String>)
        ensures
            match r {
                Some(v) => self.value(section@, key@) == Some(v@),
                None => self.value(section@, key@) is None,
            },
    {
        let s = String::from_str(section);
        let k = String::from_str(key);
        let mut i: usize = self.entries.len();
        assert(self.entries@.take(i as int) =~= self.entries@);
        while i > 0
            invariant
                i <= self.entries@.len(),
                s@ == section@,
                k@ == key@,
                setting_of(self.entries@, section@, key@) == setting_of(
                    self.entries@.take(i as int),
                    section@,
                    key@,
                ),
            decreases i,
        {
            assert(self.entries@.take(i as int).drop_last() =~= self.entries@.take(i - 1));
            let e = &self.entries[i - 1];
            if e.section == s && e.key == k {
                return Some(e.value.clone());
            }
            i = i - 1;
        }
        None
    }

    /// The value of `key` in `section`, which must be configured.
    pub fn get(&self, section: &str, key: &str) -> (r: String)
        requires
            self.value(section@, key@) is Some,
        ensures
            self.value(section@, key@) == Some(r@),
    {
        match self.lookup(section, key) {
            Some(v) => v,
            None => String::new(),
        }
    }
}

} // verus!
