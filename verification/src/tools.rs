//! Tools the agent can invoke: a capability interface, two example tools
//! (echo and current time), and a registry that looks tools up by name.

use vstd::prelude::*;

verus! {

/// Error returned by a tool whose execution failed. The two example tools
/// never fail; the type exists for the interface.
#[derive(Debug)]
pub struct ToolError;

/// A tool that the agent can use: a named capability that turns a text
/// input into a text output.
///
/// Each implementor fixes its name and description, and says with
/// [`Tool::valid_output`] which outputs its `execute` may produce for a
/// given input.
pub trait Tool {
    /// The tool's name, as a sequence of characters.
    spec fn spec_name(&self) -> Seq<char>;

    /// The tool's description, as a sequence of characters.
    spec fn spec_description(&self) -> Seq<char>;

    /// Which outputs `execute` may return for the given input.
    spec fn valid_output(&self, input: Seq<char>, output: Seq<char>) -> bool;

    fn name(&self) -> (r: &str)
        ensures
            r@ == self.spec_name(),
    ;

    fn description(&self) -> (r: &str)
        ensures
            r@ == self.spec_description(),
    ;

    fn execute(&self, input: &str) -> (r: Result<String, ToolError>)
        ensures
            r is Ok,
            r matches Ok(out) ==> self.valid_output(input@, out@),
    ;
}

/// Echo tool: returns its input unchanged.
pub struct EchoTool;

impl Tool for EchoTool {
    open spec fn spec_name(&self) -> Seq<char> {
        "echo"@
    }

    open spec fn spec_description(&self) -> Seq<char> {
        "Echoes back the input text"@
    }

    /// The only output echo may produce is the input itself.
    open spec fn valid_output(&self, input: Seq<char>, output: Seq<char>) -> bool {
        output == input
    }

    fn name(&self) -> (r: &str) {
        "echo"
    }

    fn description(&self) -> (r: &str) {
        "Echoes back the input text"
    }

    fn execute(&self, input: &str) -> (r: Result<String, ToolError>) {
        Ok(input.to_owned())
    }
}

/// The character standing for one decimal digit.
pub open spec fn digit_char(d: int) -> char {
    if d == 0 {
        '0'
    } else if d == 1 {
        '1'
    } else if d == 2 {
        '2'
    } else if d == 3 {
        '3'
    } else if d == 4 {
        '4'
    } else if d == 5 {
        '5'
    } else if d == 6 {
        '6'
    } else if d == 7 {
        '7'
    } else if d == 8 {
        '8'
    } else {
        '9'
    }
}

/// The decimal representation of `n`: most significant digit first, no
/// leading zero except for `n == 0` itself.
pub open spec fn dec_rep(n: nat) -> Seq<char>
    decreases n,
{
    if n < 10 {
        seq![digit_char(n as int)]
    } else {
        dec_rep(n / 10) + seq![digit_char((n % 10) as int)]
    }
}

/// The single-character string for one decimal digit.
fn digit_str(d: u64) -> (r: &'static str)
    requires
        d < 10,
    ensures
        r@ == seq![digit_char(d as int)],
{
    proof {
        reveal_strlit("0");
        reveal_strlit("1");
        reveal_strlit("2");
        reveal_strlit("3");
        reveal_strlit("4");
        reveal_strlit("5");
        reveal_strlit("6");
        reveal_strlit("7");
        reveal_strlit("8");
        reveal_strlit("9");
    }
    let r: &'static str = if d == 0 {
        "0"
    } else if d == 1 {
        "1"
    } else if d == 2 {
        "2"
    } else if d == 3 {
        "3"
    } else if d == 4 {
        "4"
    } else if d == 5 {
        "5"
    } else if d == 6 {
        "6"
    } else if d == 7 {
        "7"
    } else if d == 8 {
        "8"
    } else {
        "9"
    };
    proof {
        assert(r@ =~= seq![digit_char(d as int)]);
    }
    r
}

/// Writes `n` in decimal.
pub fn u64_to_dec(n: u64) -> (r: String)
    ensures
        r@ == dec_rep(n as nat),
    decreases n,
{
    if n < 10 {
        String::from_str(digit_str(n))
    } else {
        proof {
            assert(n as int / 10 < n as int) by (nonlinear_arith)
                requires
                    n >= 10,
            ;
        }
        let mut s = u64_to_dec(n / 10);
        s.append(digit_str(n % 10));
        s
    }
}

/// The line the time tool prints for a clock reading of `secs` seconds.
pub open spec fn timestamp_message(secs: u64) -> Seq<char> {
    "Unix timestamp: "@ + dec_rep(secs as nat) + " seconds since epoch"@
}

/// Renders the time tool's line for the given clock reading.
pub fn timestamp_line(secs: u64) -> (r: String)
    ensures
        r@ == timestamp_message(secs),
{
    let mut s = String::from_str("Unix timestamp: ");
    let digits = u64_to_dec(secs);
    s.append(digits.as_str());
    s.append(" seconds since epoch");
    proof {
        assert(s@ =~= timestamp_message(secs));
    }
    s
}

/// Relies on `std::time::SystemTime::now`, `SystemTime::duration_since`
/// (against `UNIX_EPOCH`) and `Duration::as_secs` for the whole seconds
/// between the Unix epoch and the system clock's current reading. Yields
/// `None` when the clock reads earlier than the epoch. The result depends
/// on the clock, so nothing is stated of it.
#[verifier::external_body]
fn now_unix_secs() -> Option<u64> {
    match std::time::SystemTime::now().duration_since(std::time::UNIX_EPOCH) {
        Ok(d) => Some(d.as_secs()),
        Err(_) => None,
    }
}

/// Reads the system clock and renders its line; a clock that reads before
/// the Unix epoch counts as zero seconds.
pub fn chrono_lite() -> (r: String)
    ensures
        exists|secs: u64| r@ == timestamp_message(secs),
{
    let secs: u64 = match now_unix_secs() {
        Some(s) => s,
        None => 0,
    };
    let r = timestamp_line(secs);
    proof {
        assert(r@ == timestamp_message(secs));
    }
    r
}

/// Current time tool: reports the Unix timestamp in seconds.
pub struct TimeTool;

impl Tool for TimeTool {
    open spec fn spec_name(&self) -> Seq<char> {
        "time"@
    }

    open spec fn spec_description(&self) -> Seq<char> {
        "Returns the current date and time"@
    }

    /// Every output is the timestamp line for some clock reading; which
    /// reading depends on the clock alone, not on the input.
    open spec fn valid_output(&self, input: Seq<char>, output: Seq<char>) -> bool {
        exists|secs: u64| output == timestamp_message(secs)
    }

    fn name(&self) -> (r: &str) {
        "time"
    }

    fn description(&self) -> (r: &str) {
        "Returns the current date and time"
    }

    fn execute(&self, _input: &str) -> (r: Result<String, ToolError>) {
        Ok(chrono_lite())
    }
}

/// The closed set of tool variants the registry can hold. Dispatches every
/// capability operation to the variant's own implementation.
pub enum ToolBox {
    Echo(EchoTool),
    Time(TimeTool),
}

impl Tool for ToolBox {
    open spec fn spec_name(&self) -> Seq<char> {
        match self {
            ToolBox::Echo(t) => t.spec_name(),
            ToolBox::Time(t) => t.spec_name(),
        }
    }

    open spec fn spec_description(&self) -> Seq<char> {
        match self {
            ToolBox::Echo(t) => t.spec_description(),
            ToolBox::Time(t) => t.spec_description(),
        }
    }

    open spec fn valid_output(&self, input: Seq<char>, output: Seq<char>) -> bool {
        match self {
            ToolBox::Echo(t) => t.valid_output(input, output),
            ToolBox::Time(t) => t.valid_output(input, output),
        }
    }

    fn name(&self) -> (r: &str) {
        match self {
            ToolBox::Echo(t) => t.name(),
            ToolBox::Time(t) => t.name(),
        }
    }

    fn description(&self) -> (r: &str) {
        match self {
            ToolBox::Echo(t) => t.description(),
            ToolBox::Time(t) => t.description(),
        }
    }

    fn execute(&self, input: &str) -> (r: Result<String, ToolError>) {
        match self {
            ToolBox::Echo(t) => t.execute(input),
            ToolBox::Time(t) => t.execute(input),
        }
    }
}

/// `j` is the position of the first tool in `s` that bears `name`.
pub open spec fn first_match_at(s: Seq<ToolBox>, name: Seq<char>, j: int) -> bool {
    &&& 0 <= j < s.len()
    &&& s[j].spec_name() == name
    &&& forall|k: int| 0 <= k < j ==> s[k].spec_name() != name
}

/// Registry of available tools, in registration order. Names are not
/// required to be unique: lookup returns the first match.
pub struct ToolRegistry {
    tools: Vec<ToolBox>,
}

impl View for ToolRegistry {
    type V = Seq<ToolBox>;

    closed spec fn view(&self) -> Seq<ToolBox> {
        self.tools@
    }
}

impl ToolRegistry {
    /// An empty registry.
    pub fn new() -> (r: ToolRegistry)
        ensures
            r@ == Seq::<ToolBox>::empty(),
    {
        ToolRegistry { tools: Vec::new() }
    }

    /// Appends a tool; nothing already registered moves.
    pub fn register(&mut self, tool: ToolBox)
        ensures
            final(self)@ == old(self)@.push(tool),
    {
        self.tools.push(tool);
    }

    /// The first registered tool bearing `name`, or `None` when no
    /// registered tool bears it.
    pub fn get(&self, name: &str) -> (r: Option<&ToolBox>)
        ensures
            match r {
                Some(t) => exists|j: int| first_match_at(self@, name@, j) && *t == self@[j],
                None => forall|j: int|
                    0 <= j < self@.len() ==> self@[j].spec_name() != name@,
            },
    {
        let query: String = name.to_owned();
        let n = self.tools.len();
        let mut i: usize = 0;
        while i < n
            invariant
                n == self@.len(),
                i <= n,
                query@ == name@,
                forall|k: int| 0 <= k < i ==> self@[k].spec_name() != name@,
            decreases n - i,
        {
            let t = &self.tools[i];
            if t.name().to_owned() == query {
                proof {
                    assert(first_match_at(self@, name@, i as int));
                }
                return Some(t);
            }
            i = i + 1;
        }
        None
    }

    /// The names of the registered tools, in registration order.
    pub fn list(&self) -> (r: Vec<String>)
        ensures
            r@.len() == self@.len(),
            forall|j: int| 0 <= j < self@.len() ==> r@[j]@ == self@[j].spec_name(),
    {
        let mut names: Vec<String> = Vec::new();
        let n = self.tools.len();
        let mut i: usize = 0;
        while i < n
            invariant
                n == self@.len(),
                i <= n,
                names@.len() == i,
                forall|j: int| 0 <= j < i ==> names@[j]@ == self@[j].spec_name(),
            decreases n - i,
        {
            names.push(self.tools[i].name().to_owned());
            i = i + 1;
        }
        names
    }
}

impl Default for ToolRegistry {
    /// Same as [`ToolRegistry::new`]: an empty registry.
    fn default() -> (r: ToolRegistry)
        ensures
            r@ == Seq::<ToolBox>::empty(),
    {
        ToolRegistry::new()
    }
}

} // verus!
