//! Decisions of the background writer, which gathers commands and writes
//! them in batches.

use vstd::prelude::*;

verus! {

/// Number of gathered commands at which a batch is written at once.
pub const FLUSH_THRESHOLD: usize = 200;

/// What the writer thread observed while waiting for commands.
#[derive(Debug)]
pub enum WriterEvent<T> {
    /// A command arrived.
    Received(T),
    /// No command arrived within the wait.
    TimedOut,
    /// Every sender is gone.
    Disconnected,
}

/// What the writer thread does next: write `batch` (when it is not empty),
/// then stop when `stop` is set.
#[derive(Debug)]
pub struct WriterAction<T> {
    pub batch: Vec<T>,
    pub stop: bool,
}

/// The commands an event brings.
pub open spec fn received<T>(event: WriterEvent<T>) -> Seq<T> {
    match event {
        WriterEvent::Received(c) => seq![c],
        _ => Seq::empty(),
    }
}

/// Commands gathered by the writer and not yet written.
#[derive(Debug)]
pub struct WriteBuffer<T> {
    pending: Vec<T>,
}

impl<T> View for WriteBuffer<T> {
    type V = Seq<T>;

    closed spec fn view(&self) -> Seq<T> {
        self.pending@
    }
}

impl<T> WriteBuffer<T> {
    /// An empty buffer.
    pub fn new() -> (r: Self)
        ensures
            r@ == Seq::<T>::empty(),
    {
        WriteBuffer { pending: Vec::new() }
    }

    /// Takes one observation. A received command joins the gathered ones,
    /// which are handed out as a batch once there are 200 of them; a
    /// timeout hands out whatever is gathered; a disconnection hands it out
    /// and stops the writer. No command is lost or handed out twice, and
    /// they leave in the order they came.
    pub fn step(&mut self, event: WriterEvent<T>) -> (r: WriterAction<T>)
        ensures
            old(self)@ + received(event) == r.batch@ + final(self)@,
            r.stop == (event is Disconnected),
            match event {
                WriterEvent::Received(_) => if old(self)@.len() + 1 >= FLUSH_THRESHOLD {
                    final(self)@.len() == 0
                } else {
                    r.batch@.len() == 0
                },
                _ => final(self)@.len() == 0,
            },
    {
        match event {
            WriterEvent::Received(command) => {
                self.pending.push(command);
                if self.pending.len() >= FLUSH_THRESHOLD {
                    let mut batch = Vec::new();
                std::mem::swap(&mut batch, &mut self.pending);
                    WriterAction { batch, stop: false }
                } else {
                    WriterAction { batch: Vec::new(), stop: false }
                }
            },
            WriterEvent::TimedOut => {
                let mut batch = Vec::new();
                std::mem::swap(&mut batch, &mut self.pending);
                WriterAction { batch, stop: false }
            },
            WriterEvent::Disconnected => {
                let mut batch = Vec::new();
                std::mem::swap(&mut batch, &mut self.pending);
                WriterAction { batch, stop: true }
            },
        }
    }
}

} // verus!
