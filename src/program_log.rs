use vstd::prelude::*;

verus! {

/// The messages that invocations wrote to the host's log, oldest first.
pub struct ProgramLog {
    messages: Vec<String>,
}

impl View for ProgramLog {
    type V = Seq<Seq<char>>;

    closed spec fn view(&self) -> Seq<Seq<char>> {
        self.messages@.map_values(|m: String| m@)
    }
}

/// How many lines of `log` are exactly `message`.
pub open spec fn occurrences(log: Seq<Seq<char>>, message: Seq<char>) -> nat {
    log.filter(|m: Seq<char>| m == message).len()
}

impl ProgramLog {
    /// A log that holds no message yet.
    pub fn new() -> (r: Self)
        ensures
            r@ == Seq::<Seq<char>>::empty(),
    {
        let r = ProgramLog { messages: Vec::new() };
        assert(r@ =~= Seq::<Seq<char>>::empty());
        r
    }

    /// Appends one line to the log.
    pub fn write(&mut self, message: &str)
        ensures
            final(self)@ == old(self)@.push(message@),
    {
        self.messages.push(message.to_owned());
        assert(self@ =~= old(self)@.push(message@));
    }

    /// The lines written so far, oldest first.
    pub fn messages(&self) -> (r: &[String])
        ensures
            r@.map_values(|m: String| m@) == self@,
    {
        self.messages.as_slice()
    }
}

} // verus!
