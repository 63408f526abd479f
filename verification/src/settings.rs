use vstd::prelude::*;

use crate::errors::ErrorCode;

verus! {

/// One recognized, range-validated option: its current value, the default
/// it started from, and a short description.
#[derive(Debug)]
pub struct SettingEntry {
    pub name: String,
    pub value: u64,
    pub default: u64,
    pub description: String,
}

impl Clone for SettingEntry {
    fn clone(&self) -> (res: Self)
        ensures
            res == *self,
    {
        SettingEntry {
            name: self.name.clone(),
            value: self.value,
            default: self.default,
            description: self.description.clone(),
        }
    }
}

/// Whether entry `e` is stored under `name`.
pub open spec fn setting_key_is(e: SettingEntry, name: Seq<char>) -> bool {
    e.name@ == name
}

/// The value stored for `name`: that of the first entry with the name, or
/// `None` when the key is not recognized.
pub open spec fn lookup_setting(s: Seq<SettingEntry>, name: Seq<char>) -> Option<u64>
    decreases s.len(),
{
    if s.len() <= 0 {
        None
    } else if setting_key_is(s[0], name) {
        Some(s[0].value)
    } else {
        lookup_setting(s.drop_first(), name)
    }
}

/// The store after a validated set for `name`: the first entry with the
/// name carries exactly `value`; everything else is untouched. A store
/// without the key is unchanged (the set itself fails then).
pub open spec fn set_result(s: Seq<SettingEntry>, name: Seq<char>, value: u64) -> Seq<SettingEntry>
    decreases s.len(),
{
    if s.len() <= 0 {
        s
    } else if setting_key_is(s[0], name) {
        seq![
            SettingEntry {
                name: s[0].name,
                value,
                default: s[0].default,
                description: s[0].description,
            },
        ] + s.drop_first()
    } else {
        seq![s[0]] + set_result(s.drop_first(), name, value)
    }
}

/// A lookup skips any prefix free of the key, and a set leaves such a
/// prefix untouched.
pub proof fn lemma_setting_scan_past_prefix(
    s: Seq<SettingEntry>,
    name: Seq<char>,
    value: u64,
    i: int,
)
    requires
        0 <= i <= s.len(),
        forall|k: int| 0 <= k < i ==> !setting_key_is(#[trigger] s[k], name),
    ensures
        lookup_setting(s, name) == lookup_setting(s.skip(i), name),
        set_result(s, name, value) =~= s.take(i) + set_result(s.skip(i), name, value),
    decreases i,
{
    if i > 0 {
        lemma_setting_scan_past_prefix(s.drop_first(), name, value, i - 1);
        assert(s.drop_first().skip(i - 1) =~= s.skip(i));
        assert(s.drop_first().take(i - 1) =~= s.take(i).drop_first());
        assert(seq![s[0]] + (s.take(i).drop_first() + set_result(s.skip(i), name, value)) =~= s.take(
            i,
        ) + set_result(s.skip(i), name, value));
    } else {
        assert(s.skip(0) =~= s);
        assert(s.take(0) + set_result(s, name, value) =~= set_result(s, name, value));
    }
}

/// A set stores exactly the requested value under its key.
pub proof fn lemma_set_observed(s: Seq<SettingEntry>, name: Seq<char>, value: u64)
    requires
        lookup_setting(s, name) is Some,
    ensures
        lookup_setting(set_result(s, name, value), name) == Some(value),
    decreases s.len(),
{
    if s.len() > 0 && !setting_key_is(s[0], name) {
        lemma_set_observed(s.drop_first(), name, value);
        assert((seq![s[0]] + set_result(s.drop_first(), name, value)).drop_first() =~= set_result(
            s.drop_first(),
            name,
            value,
        ));
    }
}

/// The per-query settings store: named, typed, range-validated options.
/// Every recognized option here is a positive integer.
#[derive(Debug)]
pub struct Settings {
    pub entries: Vec<SettingEntry>,
}

impl Settings {
    /// The recognized options, at their defaults.
    pub fn create() -> (settings: Settings)
        ensures
            settings.entries@.len() == 2,
            settings.entries@[0].name@ == "max_threads"@,
            settings.entries@[0].value == 8,
            settings.entries@[0].default == 8,
            settings.entries@[1].name@ == "max_block_size"@,
            settings.entries@[1].value == 10000,
            settings.entries@[1].default == 10000,
            lookup_setting(settings.entries@, "max_threads"@) == Some(8u64),
            lookup_setting(settings.entries@, "max_block_size"@) == Some(10000u64),
    {
        let mut entries: Vec<SettingEntry> = Vec::new();
        entries.push(
            SettingEntry {
                name: String::from_str("max_threads"),
                value: 8,
                default: 8,
                description: String::from_str("The maximum degree of query parallelism."),
            },
        );
        entries.push(
            SettingEntry {
                name: String::from_str("max_block_size"),
                value: 10000,
                default: 10000,
                description: String::from_str("The maximum row count of one data block."),
            },
        );
        proof {
            reveal_strlit("max_threads");
            reveal_strlit("max_block_size");
            assert("max_threads"@.len() == 11);
            assert("max_block_size"@.len() == 14);
            assert(entries@[0].name@ != entries@[1].name@);
            assert(entries@.drop_first() =~= seq![entries@[1]]);
            assert(lookup_setting(entries@, "max_threads"@) == Some(8u64));
            assert(entries@.drop_first()[0] == entries@[1]);
            assert(lookup_setting(entries@.drop_first(), "max_block_size"@) == Some(10000u64));
            assert(lookup_setting(entries@, "max_block_size"@) == Some(10000u64));
        }
        Settings { entries }
    }

    /// Scan for the key. `Some(i)` names the first entry stored under it.
    fn find_setting_index(&self, key: &String) -> (found: Option<usize>)
        ensures
            match found {
                Some(i) => {
                    &&& i < self.entries@.len()
                    &&& setting_key_is(self.entries@[i as int], key@)
                    &&& forall|k: int|
                        0 <= k < i ==> !setting_key_is(#[trigger] self.entries@[k], key@)
                },
                None => forall|k: int|
                    0 <= k < self.entries@.len() ==> !setting_key_is(
                        #[trigger] self.entries@[k],
                        key@,
                    ),
            },
    {
        let mut i: usize = 0;
        while i < self.entries.len()
            invariant
                i <= self.entries@.len(),
                forall|k: int| 0 <= k < i ==> !setting_key_is(#[trigger] self.entries@[k], key@),
            decreases self.entries@.len() - i,
        {
            if self.entries[i].name == *key {
                return Some(i);
            }
            i = i + 1;
        }
        None
    }

    /// Read a recognized option; unrecognized keys are rejected.
    pub fn try_get_u64(&self, key: &String) -> (outcome: Result<u64, ErrorCode>)
        ensures
            match outcome {
                Ok(v) => lookup_setting(self.entries@, key@) == Some(v),
                Err(e) => e == ErrorCode::UnknownSetting && lookup_setting(self.entries@, key@)
                    is None,
            },
    {
        match self.find_setting_index(key) {
            Some(i) => {
                proof {
                    lemma_setting_scan_past_prefix(self.entries@, key@, 0u64, i as int);
                }
                Ok(self.entries[i].value)
            }
            None => {
                proof {
                    lemma_setting_scan_past_prefix(
                        self.entries@,
                        key@,
                        0u64,
                        self.entries@.len() as int,
                    );
                }
                Err(ErrorCode::UnknownSetting)
            }
        }
    }

    /// Write a recognized option through validation: the value must be a
    /// positive integer and the key must be recognized; the store is
    /// unchanged on any failure.
    pub fn try_set_u64(&mut self, key: &String, value: u64) -> (outcome: Result<(), ErrorCode>)
        ensures
            match outcome {
                Ok(()) => {
                    &&& value > 0
                    &&& lookup_setting(old(self).entries@, key@) is Some
                    &&& final(self).entries@ == set_result(old(self).entries@, key@, value)
                },
                Err(e) => {
                    &&& final(self).entries@ == old(self).entries@
                    &&& match e {
                        ErrorCode::InvalidSettingValue => value == 0,
                        ErrorCode::UnknownSetting => value > 0 && lookup_setting(
                            old(self).entries@,
                            key@,
                        ) is None,
                        _ => false,
                    }
                },
            },
    {
        if value == 0 {
            return Err(ErrorCode::InvalidSettingValue);
        }
        match self.find_setting_index(key) {
            Some(i) => {
                proof {
                    lemma_setting_scan_past_prefix(self.entries@, key@, value, i as int);
                }
                let ghost prev = self.entries@;
                let entry = SettingEntry {
                    name: self.entries[i].name.clone(),
                    value,
                    default: self.entries[i].default,
                    description: self.entries[i].description.clone(),
                };
                self.entries[i] = entry;
                proof {
                    assert(prev.skip(i as int).drop_first() =~= prev.skip(i as int + 1));
                    assert(self.entries@ =~= prev.take(i as int) + (seq![
                        SettingEntry {
                            name: prev[i as int].name,
                            value,
                            default: prev[i as int].default,
                            description: prev[i as int].description,
                        },
                    ] + prev.skip(i as int).drop_first()));
                }
                Ok(())
            }
            None => {
                proof {
                    lemma_setting_scan_past_prefix(
                        self.entries@,
                        key@,
                        value,
                        self.entries@.len() as int,
                    );
                }
                Err(ErrorCode::UnknownSetting)
            }
        }
    }

    /// The validated setter for the query's degree of parallelism.
    pub fn set_max_threads(&mut self, n: u64) -> (outcome: Result<(), ErrorCode>)
        ensures
            match outcome {
                Ok(()) => {
                    &&& n > 0
                    &&& lookup_setting(old(self).entries@, "max_threads"@) is Some
                    &&& final(self).entries@ == set_result(old(self).entries@, "max_threads"@, n)
                },
                Err(e) => {
                    &&& final(self).entries@ == old(self).entries@
                    &&& match e {
                        ErrorCode::InvalidSettingValue => n == 0,
                        ErrorCode::UnknownSetting => n > 0 && lookup_setting(
                            old(self).entries@,
                            "max_threads"@,
                        ) is None,
                        _ => false,
                    }
                },
            },
    {
        let key = String::from_str("max_threads");
        self.try_set_u64(&key, n)
    }

    /// The validated getter for the query's degree of parallelism.
    pub fn get_max_threads(&self) -> (outcome: Result<u64, ErrorCode>)
        ensures
            match outcome {
                Ok(v) => lookup_setting(self.entries@, "max_threads"@) == Some(v),
                Err(e) => e == ErrorCode::UnknownSetting && lookup_setting(
                    self.entries@,
                    "max_threads"@,
                ) is None,
            },
    {
        let key = String::from_str("max_threads");
        self.try_get_u64(&key)
    }

    pub fn num_settings(&self) -> (n: usize)
        ensures
            n == self.entries@.len(),
    {
        self.entries.len()
    }
}

} // verus!
