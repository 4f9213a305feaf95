//! What the process is told at start: the zone and the record to track.

use vstd::prelude::*;
use vstd::string::*;

verus! {

/// The zone and the record that are tracked. Built once from the process
/// arguments and read-only afterwards.
#[derive(Clone, Copy, Debug)]
pub struct Config<'a> {
    zone: &'a str,
    zone_id: &'a str,
    record: &'a str,
}

/// `Config` over plain text.
pub struct ConfigView {
    pub zone: Seq<char>,
    pub zone_id: Seq<char>,
    pub record: Seq<char>,
}

impl ConfigView {
    /// No field is empty.
    pub open spec fn wf(self) -> bool {
        self.zone.len() > 0 && self.zone_id.len() > 0 && self.record.len() > 0
    }
}

impl<'a> View for Config<'a> {
    type V = ConfigView;

    closed spec fn view(&self) -> ConfigView {
        ConfigView { zone: self.zone@, zone_id: self.zone_id@, record: self.record@ }
    }
}

/// What `Config::new` says when it refuses the arguments.
pub open spec fn argument_count_message() -> Seq<char> {
    "Incorrect number of arguments"@
}

/// Whether `args` are a program name followed by the zone's identifier, the
/// zone's name and the record's name, none of them empty.
pub open spec fn well_formed_arguments(args: Seq<String>) -> bool {
    args.len() == 4 && args[1]@.len() > 0 && args[2]@.len() > 0 && args[3]@.len() > 0
}

impl<'a> Config<'a> {
    /// No field is empty: this holds of every configuration.
    #[verifier::type_invariant]
    pub closed spec fn wf(&self) -> bool {
        self@.wf()
    }

    /// Reads the configuration from the process arguments: the program's
    /// name, then the zone's identifier, the zone's name and the record's
    /// name. Any other count, or an empty argument among the three, is
    /// refused.
    pub fn new(args: &'a [String]) -> (res: Result<Config<'a>, &'a str>)
        ensures
            res is Ok <==> well_formed_arguments(args@),
            res matches Ok(config) ==> config@.wf() && config@ == (ConfigView {
                zone: args@[2]@,
                zone_id: args@[1]@,
                record: args@[3]@,
            }),
            res matches Err(message) ==> message@ == argument_count_message(),
    {
        if args.len() != 4 {
            return Err("Incorrect number of arguments");
        }
        let zone_id = args[1].as_str();
        let zone = args[2].as_str();
        let record = args[3].as_str();
        if zone_id.is_empty() || zone.is_empty() || record.is_empty() {
            return Err("Incorrect number of arguments");
        }
        Ok(Config { zone_id, zone, record })
    }

    /// The zone's name.
    pub fn zone(&self) -> (s: &'a str)
        ensures
            s@ == self@.zone,
            s@.len() > 0,
    {
        proof {
            use_type_invariant(self);
        }
        self.zone
    }

    /// The provider's identifier of the zone.
    pub fn zone_id(&self) -> (s: &'a str)
        ensures
            s@ == self@.zone_id,
            s@.len() > 0,
    {
        proof {
            use_type_invariant(self);
        }
        self.zone_id
    }

    /// The fully qualified name of the record.
    pub fn record(&self) -> (s: &'a str)
        ensures
            s@ == self@.record,
            s@.len() > 0,
    {
        proof {
            use_type_invariant(self);
        }
        self.record
    }
}

} // verus!
