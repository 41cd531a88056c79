//! Breadcrumb trails of the SoryOS look.
use vstd::prelude::*;

verus! {

/// One segment of a breadcrumb trail.
pub enum BreadcrumbSegment<E, Message> {
    /// A segment that can be pressed.
    Link { label: String, on_press: Message },
    /// The current location (not pressable).
    Current(String),
    /// A pressable segment with an icon.
    IconLink { icon: E, label: Option<String>, on_press: Message },
}

/// What is drawn between segments.
#[derive(Debug, Clone)]
pub enum BreadcrumbSeparator {
    /// `›`
    Chevron,
    /// `/`
    Slash,
    /// `•`
    Dot,
    /// `→`
    Arrow,
    /// A text of one's own.
    Custom(String),
}

/// A breadcrumb trail.
pub struct SoryBreadcrumb<E, Message> {
    pub segments: Vec<BreadcrumbSegment<E, Message>>,
    pub separator: BreadcrumbSeparator,
}

impl<E, Message> SoryBreadcrumb<E, Message> {
    /// An empty trail with chevrons between segments.
    pub fn new() -> (r: Self)
        ensures
            r.segments@.len() == 0,
            r.separator is Chevron,
    {
        SoryBreadcrumb { segments: Vec::new(), separator: BreadcrumbSeparator::Chevron }
    }

    pub fn separator(self, sep: BreadcrumbSeparator) -> (r: Self)
        ensures
            r.segments == self.segments,
            r.separator == sep,
    {
        SoryBreadcrumb { separator: sep, ..self }
    }

    fn with_segment(self, seg: BreadcrumbSegment<E, Message>) -> (r: Self)
        ensures
            r.segments@ == self.segments@.push(seg),
            r.separator == self.separator,
    {
        let mut s = self;
        s.segments.push(seg);
        s
    }

    /// Adds a pressable segment.
    pub fn link(self, label: &str, on_press: Message) -> (r: Self)
        ensures
            r.segments@.len() == self.segments@.len() + 1,
            r.segments@.drop_last() == self.segments@,
            r.segments@.last() matches BreadcrumbSegment::Link { label: l, on_press: m } && l@ == label@ && m == on_press,
            r.separator == self.separator,
    {
        let r = self.with_segment(BreadcrumbSegment::Link { label: String::from_str(label), on_press });
        proof {
            assert(r.segments@.drop_last() =~= self.segments@);
        }
        r
    }

    /// Adds a pressable segment with an icon.
    pub fn icon_link(self, icon: E, label: Option<&str>, on_press: Message) -> (r: Self)
        ensures
            r.segments@.len() == self.segments@.len() + 1,
            r.segments@.drop_last() == self.segments@,
            r.segments@.last() matches BreadcrumbSegment::IconLink { icon: i, label: l, on_press: m } && i == icon
                && m == on_press && match label {
                    Some(t) => l matches Some(s) && s@ == t@,
                    None => l is None,
                },
            r.separator == self.separator,
    {
        let l = match label {
            Some(t) => Some(String::from_str(t)),
            None => None,
        };
        let r = self.with_segment(BreadcrumbSegment::IconLink { icon, label: l, on_press });
        proof {
            assert(r.segments@.drop_last() =~= self.segments@);
        }
        r
    }

    /// Adds the current location.
    pub fn current(self, label: &str) -> (r: Self)
        ensures
            r.segments@.len() == self.segments@.len() + 1,
            r.segments@.drop_last() == self.segments@,
            r.segments@.last() matches BreadcrumbSegment::Current(l) && l@ == label@,
            r.separator == self.separator,
    {
        let r = self.with_segment(BreadcrumbSegment::Current(String::from_str(label)));
        proof {
            assert(r.segments@.drop_last() =~= self.segments@);
        }
        r
    }

    /// Adds segments, in order.
    pub fn segments(self, segs: Vec<BreadcrumbSegment<E, Message>>) -> (r: Self)
        ensures
            r.segments@ == self.segments@ + segs@,
            r.separator == self.separator,
    {
        let mut s = self;
        let mut more = segs;
        s.segments.append(&mut more);
        s
    }
}

/// The separator's text.
pub fn separator_text(sep: &BreadcrumbSeparator) -> (r: String)
    ensures
        sep is Chevron ==> r@ == seq!['›'],
        sep is Slash ==> r@ == seq!['/'],
        sep is Dot ==> r@ == seq!['•'],
        sep is Arrow ==> r@ == seq!['→'],
        sep matches BreadcrumbSeparator::Custom(s) ==> r@ == s@,
{
    proof {
        reveal_strlit("›");
        reveal_strlit("/");
        reveal_strlit("•");
        reveal_strlit("→");
    }
    match sep {
        BreadcrumbSeparator::Chevron => String::from_str("›"),
        BreadcrumbSeparator::Slash => String::from_str("/"),
        BreadcrumbSeparator::Dot => String::from_str("•"),
        BreadcrumbSeparator::Arrow => String::from_str("→"),
        BreadcrumbSeparator::Custom(s) => s.clone(),
    }
}

/// The characters of a separator.
pub open spec fn separator_chars(sep: BreadcrumbSeparator) -> Seq<char> {
    match sep {
        BreadcrumbSeparator::Chevron => seq!['\u{203a}'],
        BreadcrumbSeparator::Slash => seq!['/'],
        BreadcrumbSeparator::Dot => seq!['\u{2022}'],
        BreadcrumbSeparator::Arrow => seq!['\u{2192}'],
        BreadcrumbSeparator::Custom(s) => s@,
    }
}

/// One piece of a trail as it is shown.
pub enum TrailPiece<E, Message> {
    Segment(BreadcrumbSegment<E, Message>),
    Separator(String),
}

/// The segments in order with the separator between each two of them (none
/// before the first or after the last).
pub open spec fn trail_spec<E, M>(segs: Seq<BreadcrumbSegment<E, M>>, sep: String) -> Seq<TrailPiece<E, M>>
    decreases segs.len(),
{
    if segs.len() == 0 {
        Seq::empty()
    } else {
        let between = if segs.len() > 1 { seq![TrailPiece::Separator(sep)] } else { Seq::empty() };
        trail_spec(segs.drop_last(), sep) + between + seq![TrailPiece::Segment(segs.last())]
    }
}

/// What a trail shows: its separator's text, and its pieces in order.
pub struct TrailLayout<E, Message> {
    pub separator: String,
    pub pieces: Vec<TrailPiece<E, Message>>,
}

impl<E, Message> SoryBreadcrumb<E, Message> {
    /// The trail's layout.
    pub fn layout(self) -> (r: TrailLayout<E, Message>)
        ensures
            r.separator@ == separator_chars(self.separator),
            r.pieces@ == trail_spec(self.segments@, r.separator),
    {
        let sep = separator_text(&self.separator);
        proof {
            match self.separator {
                BreadcrumbSeparator::Chevron => assert(sep@ =~= seq!['\u{203a}']),
                BreadcrumbSeparator::Dot => assert(sep@ =~= seq!['\u{2022}']),
                BreadcrumbSeparator::Arrow => assert(sep@ =~= seq!['\u{2192}']),
                _ => {},
            }
        }
        let ghost all = self.segments@;
        let mut rest = self.segments;
        let mut pieces: Vec<TrailPiece<E, Message>> = Vec::new();
        let mut n: usize = 0;
        proof {
            assert(all.len() == rest.len());
            assert(all.take(0) =~= Seq::<BreadcrumbSegment<E, Message>>::empty());
        }
        while rest.len() > 0
            invariant
                n + rest@.len() == all.len(),
                all.len() <= usize::MAX,
                rest@ == all.skip(n as int),
                pieces@ == trail_spec(all.take(n as int), sep),
            decreases rest.len(),
        {
            let seg = rest.remove(0);
            proof {
                assert(all.skip(n as int)[0] == all[n as int]);
                assert(rest@ =~= all.skip(n + 1));
                assert(all.take(n + 1).drop_last() =~= all.take(n as int));
                assert(all.take(n + 1).last() == seg);
            }
            let ghost before = pieces@;
            if n > 0 {
                pieces.push(TrailPiece::Separator(sep.clone()));
            }
            pieces.push(TrailPiece::Segment(seg));
            proof {
                let between = if n + 1 > 1 { seq![TrailPiece::Separator(sep)] } else { Seq::empty() };
                assert(pieces@ =~= before + between + seq![TrailPiece::Segment(seg)]);
            }
            n = n + 1;
        }
        proof {
            assert(all.take(all.len() as int) =~= all);
        }
        TrailLayout { separator: sep, pieces }
    }
}

/// A trail from `(label, message)` pairs: the last pair is the current
/// location, a pair with a message is a link, and one without is shown as
/// a current location.
pub fn simple_breadcrumb<E, Message: Clone>(segments: &[(&str, Option<Message>)]) -> (r: SoryBreadcrumb<E, Message>)
    ensures
        r.segments@.len() == segments@.len(),
        r.separator is Chevron,
        forall|i: int| 0 <= i < segments@.len() ==> {
            let (label, msg) = segments@[i];
            if i + 1 == segments@.len() || msg is None {
                (#[trigger] r.segments@[i]) matches BreadcrumbSegment::Current(l) && l@ == label@
            } else {
                r.segments@[i] matches BreadcrumbSegment::Link { label: l, on_press: m } && l@ == label@
                    && cloned::<Message>(msg->0, m)
            }
        },
{
    let mut crumb: SoryBreadcrumb<E, Message> = SoryBreadcrumb::new();
    let mut i: usize = 0;
    while i < segments.len()
        invariant
            i <= segments@.len(),
            crumb.segments@.len() == i,
            crumb.separator is Chevron,
            forall|j: int| 0 <= j < i ==> {
                let (label, msg) = segments@[j];
                if j + 1 == segments@.len() || msg is None {
                    (#[trigger] crumb.segments@[j]) matches BreadcrumbSegment::Current(l) && l@ == label@
                } else {
                    crumb.segments@[j] matches BreadcrumbSegment::Link { label: l, on_press: m } && l@ == label@
                        && cloned::<Message>(msg->0, m)
                }
            },
        decreases segments.len() - i,
    {
        let (label, on_press) = &segments[i];
        let ghost before = crumb.segments@;
        if i + 1 == segments.len() {
            crumb = crumb.current(label);
        } else {
            match on_press {
                Some(msg) => {
                    crumb = crumb.link(label, msg.clone());
                },
                None => {
                    crumb = crumb.current(label);
                },
            }
        }
        proof {
            assert forall|j: int| 0 <= j <= i implies {
                let (label, msg) = segments@[j];
                if j + 1 == segments@.len() || msg is None {
                    (#[trigger] crumb.segments@[j]) matches BreadcrumbSegment::Current(l) && l@ == label@
                } else {
                    crumb.segments@[j] matches BreadcrumbSegment::Link { label: l, on_press: m } && l@ == label@
                        && cloned::<Message>(msg->0, m)
                }
            } by {
                if j < i {
                    assert(crumb.segments@.drop_last()[j] == before[j]);
                } else {
                    assert(crumb.segments@[j] == crumb.segments@.last());
                }
            }
        }
        i = i + 1;
    }
    crumb
}

} // verus!
