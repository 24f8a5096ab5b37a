//! Machine profiles: the entries of a configuration file and the validated
//! settings that a session reads.

use vstd::prelude::*;

verus! {

/// Minutes without activity before a machine counts as idle, where an entry
/// names none.
pub const DEFAULT_IDLE_MINUTES: u64 = 5;

/// One machine as a configuration file spells it.
#[derive(Debug)]
pub struct MachineFile {
    pub ssh: String,
    pub mac: Option<String>,
    pub cron: String,
    pub steam: Option<bool>,
    pub steam_delay: Option<u64>,
    pub flatpak: Option<bool>,
}

/// A configuration file: its machine entries, in file order.
#[derive(Debug)]
pub struct ConfigFile {
    pub machines: Vec<MachineFile>,
}

/// Why a configuration is refused.
#[derive(Debug, Clone, Copy, PartialEq, Eq, Structural)]
pub enum ConfigError {
    /// The entry at `index` asks for an idle timeout of zero minutes.
    ZeroIdleTimeout { index: usize },
}

/// The settings of a machine as mathematical values.
pub ghost struct MachineView {
    pub ssh: Seq<char>,
    pub mac: Option<Seq<char>>,
    pub cron: Seq<char>,
    pub steam: bool,
    pub steam_delay: u64,
    pub flatpak: bool,
}

/// The static settings of one machine. The idle timeout is never zero.
#[derive(Debug)]
pub struct Machine {
    ssh: String,
    mac: Option<String>,
    cron: String,
    steam: bool,
    /// Minutes with no activity before the machine is shut down.
    steam_delay: u64,
    flatpak: bool,
}

/// The validated machines of a configuration, in file order.
#[derive(Debug)]
pub struct Config {
    machines: Vec<Machine>,
}

impl MachineFile {
    /// An entry is acceptable unless it asks for an idle timeout of zero.
    pub open spec fn is_valid(&self) -> bool {
        self.steam_delay != Some(0u64)
    }

    /// The settings that an acceptable entry stands for: absent flags are
    /// off, an absent timeout is `DEFAULT_IDLE_MINUTES`.
    pub open spec fn settings(&self) -> MachineView {
        MachineView {
            ssh: self.ssh@,
            mac: match self.mac {
                Some(m) => Some(m@),
                None => None,
            },
            cron: self.cron@,
            steam: match self.steam {
                Some(b) => b,
                None => false,
            },
            steam_delay: match self.steam_delay {
                Some(d) => d,
                None => DEFAULT_IDLE_MINUTES,
            },
            flatpak: match self.flatpak {
                Some(b) => b,
                None => false,
            },
        }
    }
}

impl ConfigFile {
    /// Every entry is acceptable.
    pub open spec fn is_valid(&self) -> bool {
        forall|i: int| 0 <= i < self.machines@.len() ==> (#[trigger] self.machines@[i]).is_valid()
    }

    /// The settings that the entries stand for, in file order.
    pub open spec fn settings(&self) -> Seq<MachineView> {
        Seq::new(self.machines@.len(), |i: int| self.machines@[i].settings())
    }

    /// The position of the first entry that is not acceptable, or the number
    /// of entries where all are.
    pub open spec fn first_invalid(&self) -> int {
        first_invalid_from(self.machines@, 0)
    }
}

/// The least position at or after `from` whose entry is not acceptable, or
/// the length of `entries` where there is none.
pub open spec fn first_invalid_from(entries: Seq<MachineFile>, from: int) -> int
    decreases entries.len() - from,
{
    if from < 0 || from >= entries.len() {
        entries.len() as int
    } else if !entries[from].is_valid() {
        from
    } else {
        first_invalid_from(entries, from + 1)
    }
}

/// `first_invalid_from` is the least position of an unacceptable entry.
pub proof fn lemma_first_invalid(entries: Seq<MachineFile>, from: int)
    requires
        0 <= from <= entries.len(),
    ensures
        from <= first_invalid_from(entries, from) <= entries.len(),
        forall|i: int|
            from <= i < first_invalid_from(entries, from) ==> (#[trigger] entries[i]).is_valid(),
        first_invalid_from(entries, from) < entries.len() ==> !entries[first_invalid_from(
            entries,
            from,
        )].is_valid(),
    decreases entries.len() - from,
{
    if from < entries.len() && entries[from].is_valid() {
        lemma_first_invalid(entries, from + 1);
    }
}

impl View for Machine {
    type V = MachineView;

    closed spec fn view(&self) -> MachineView {
        MachineView {
            ssh: self.ssh@,
            mac: match self.mac {
                Some(m) => Some(m@),
                None => None,
            },
            cron: self.cron@,
            steam: self.steam,
            steam_delay: self.steam_delay,
            flatpak: self.flatpak,
        }
    }
}

impl Clone for Machine {
    fn clone(&self) -> (res: Self)
        ensures
            res@ == self@,
    {
        proof {
            use_type_invariant(self);
        }
        let mac = match &self.mac {
            Some(m) => Some(m.clone()),
            None => None,
        };
        Machine {
            ssh: self.ssh.clone(),
            mac,
            cron: self.cron.clone(),
            steam: self.steam,
            steam_delay: self.steam_delay,
            flatpak: self.flatpak,
        }
    }
}

impl Machine {
    #[verifier::type_invariant]
    spec fn positive_timeout(self) -> bool {
        self.steam_delay > 0
    }

    /// Builds the settings from a file entry.
    ///
    /// An entry with an idle timeout of zero is not a machine: the caller
    /// refuses it first (`try_from_file` does).
    pub fn from_file(file: MachineFile) -> (machine: Self)
        requires
            file.is_valid(),
        ensures
            machine@ == file.settings(),
    {
        let steam = match file.steam {
            Some(b) => b,
            None => false,
        };
        let steam_delay = match file.steam_delay {
            Some(d) => d,
            None => DEFAULT_IDLE_MINUTES,
        };
        let flatpak = match file.flatpak {
            Some(b) => b,
            None => false,
        };
        Machine { ssh: file.ssh, mac: file.mac, cron: file.cron, steam, steam_delay, flatpak }
    }

    /// Builds the settings from a file entry, or refuses an entry whose idle
    /// timeout is zero. `index` is the entry's position, for the error.
    pub fn try_from_file(file: MachineFile, index: usize) -> (res: Result<Self, ConfigError>)
        ensures
            file.is_valid() ==> (res matches Ok(machine) && machine@ == file.settings()),
            !file.is_valid() ==> res == Err::<Self, ConfigError>(
                ConfigError::ZeroIdleTimeout { index },
            ),
    {
        match file.steam_delay {
            Some(0) => Err(ConfigError::ZeroIdleTimeout { index }),
            _ => Ok(Machine::from_file(file)),
        }
    }

    /// The address to connect to.
    pub fn ssh(&self) -> (s: &str)
        ensures
            s@ == self@.ssh,
    {
        self.ssh.as_str()
    }

    /// The hardware address to wake the machine by, where one is configured.
    pub fn mac(&self) -> (m: Option<&str>)
        ensures
            m is Some <==> self@.mac is Some,
            m matches Some(s) ==> s@ == self@.mac->0,
    {
        match &self.mac {
            Some(m) => Some(m.as_str()),
            None => None,
        }
    }

    /// The schedule expression, which only the scheduler reads.
    pub fn cron(&self) -> (s: &str)
        ensures
            s@ == self@.cron,
    {
        self.cron.as_str()
    }

    /// Whether streaming activity is watched before the machine is shut down.
    pub fn steam(&self) -> (b: bool)
        ensures
            b == self@.steam,
    {
        self.steam
    }

    /// Minutes without activity before the machine counts as idle.
    pub fn steam_delay(&self) -> (d: u64)
        ensures
            d == self@.steam_delay,
            d > 0,
    {
        proof {
            use_type_invariant(self);
        }
        self.steam_delay
    }

    /// Whether package updates are applied.
    pub fn flatpak(&self) -> (b: bool)
        ensures
            b == self@.flatpak,
    {
        self.flatpak
    }
}

impl View for Config {
    type V = Seq<MachineView>;

    closed spec fn view(&self) -> Seq<MachineView> {
        Seq::new(self.machines@.len(), |i: int| self.machines@[i]@)
    }
}

impl Config {
    /// Validates every entry of a file, in file order.
    ///
    /// A file with an entry whose idle timeout is zero is no configuration:
    /// the caller refuses it first (`try_from_file` does).
    pub fn from_file(file: ConfigFile) -> (config: Self)
        requires
            file.is_valid(),
        ensures
            config@ == file.settings(),
    {
        let ghost entries = file.machines@;
        let mut pending = file.machines;
        let mut reversed: Vec<Machine> = Vec::new();
        while pending.len() > 0
            invariant
                pending@.len() + reversed@.len() == entries.len(),
                pending@ == entries.subrange(0, pending@.len() as int),
                forall|i: int| 0 <= i < entries.len() ==> (#[trigger] entries[i]).is_valid(),
                forall|j: int|
                    0 <= j < reversed@.len() ==> (#[trigger] reversed@[j])@ == entries[entries.len()
                        - 1 - j].settings(),
            decreases pending@.len(),
        {
            let entry = pending.pop().unwrap();
            assert(entry == entries[pending@.len() as int]);
            reversed.push(Machine::from_file(entry));
        }
        let mut machines: Vec<Machine> = Vec::new();
        while reversed.len() > 0
            invariant
                machines@.len() + reversed@.len() == entries.len(),
                forall|j: int|
                    0 <= j < reversed@.len() ==> (#[trigger] reversed@[j])@ == entries[entries.len()
                        - 1 - j].settings(),
                forall|i: int|
                    0 <= i < machines@.len() ==> (#[trigger] machines@[i])@ == entries[i].settings(),
            decreases reversed@.len(),
        {
            let machine = reversed.pop().unwrap();
            machines.push(machine);
        }
        let config = Config { machines };
        assert(config@ =~= file.settings());
        config
    }

    /// Validates every entry of a file, or refuses the file at its first
    /// entry whose idle timeout is zero.
    pub fn try_from_file(file: ConfigFile) -> (res: Result<Self, ConfigError>)
        ensures
            file.is_valid() ==> (res matches Ok(config) && config@ == file.settings()),
            !file.is_valid() ==> file.first_invalid() < file.machines@.len() && res == Err::<
                Self,
                ConfigError,
            >(ConfigError::ZeroIdleTimeout { index: file.first_invalid() as usize }),
    {
        let mut i: usize = 0;
        while i < file.machines.len()
            invariant
                i <= file.machines@.len(),
                forall|k: int| 0 <= k < i ==> (#[trigger] file.machines@[k]).is_valid(),
            decreases file.machines@.len() - i,
        {
            if let Some(0) = file.machines[i].steam_delay {
                proof {
                    lemma_first_invalid(file.machines@, 0);
                }
                return Err(ConfigError::ZeroIdleTimeout { index: i });
            }
            i = i + 1;
        }
        Ok(Config::from_file(file))
    }

    /// The machines, in file order.
    pub fn servers(&self) -> (machines: &Vec<Machine>)
        ensures
            machines@.len() == self@.len(),
            forall|i: int| 0 <= i < self@.len() ==> (#[trigger] machines@[i])@ == self@[i],
    {
        &self.machines
    }
}

} // verus!
