//! Breadcrumb trails.
use vstd::prelude::*;

verus! {

/// One step of a breadcrumb trail.
pub struct BreadcrumbItem<E, Message> {
    pub label: String,
    pub on_press: Option<Message>,
    pub icon: Option<E>,
}

/// A breadcrumb trail, with the text drawn between steps.
pub struct Breadcrumbs<E, Message> {
    pub items: Vec<BreadcrumbItem<E, Message>>,
    pub separator: String,
}

impl<E, Message> Breadcrumbs<E, Message> {
    /// An empty trail with `›` between steps.
    pub fn new() -> (r: Self)
        ensures
            r.items@.len() == 0,
            r.separator@ == seq!['›'],
    {
        proof {
            reveal_strlit("›");
        }
        Breadcrumbs { items: Vec::new(), separator: String::from_str("›") }
    }

    /// Sets the separator text.
    pub fn separator(self, sep: &str) -> (r: Self)
        ensures
            r.items == self.items,
            r.separator@ == sep@,
    {
        Breadcrumbs { separator: String::from_str(sep), ..self }
    }

    /// Adds a step.
    pub fn push_item(self, label: &str, on_press: Option<Message>) -> (r: Self)
        ensures
            r.items@.len() == self.items@.len() + 1,
            r.items@.take(self.items@.len() as int) == self.items@,
            r.items@.last().label@ == label@,
            r.items@.last().on_press == on_press,
            r.items@.last().icon is None,
            r.separator == self.separator,
    {
        let mut s = self;
        s.items.push(BreadcrumbItem { label: String::from_str(label), on_press, icon: None });
        proof {
            assert(s.items@.take(self.items@.len() as int) =~= self.items@);
        }
        s
    }

    /// Adds a step with an icon.
    pub fn push_item_with_icon(self, label: &str, icon: E, on_press: Option<Message>) -> (r: Self)
        ensures
            r.items@.len() == self.items@.len() + 1,
            r.items@.take(self.items@.len() as int) == self.items@,
            r.items@.last().label@ == label@,
            r.items@.last().on_press == on_press,
            r.items@.last().icon == Some(icon),
            r.separator == self.separator,
    {
        let mut s = self;
        s.items.push(BreadcrumbItem { label: String::from_str(label), on_press, icon: Some(icon) });
        proof {
            assert(s.items@.take(self.items@.len() as int) =~= self.items@);
        }
        s
    }

    /// Adds the home step, labelled "Accueil", with the given home icon.
    pub fn push_home(self, on_press: Message, icon: E) -> (r: Self)
        ensures
            r.items@.len() == self.items@.len() + 1,
            r.items@.take(self.items@.len() as int) == self.items@,
            r.items@.last().label@ == seq!['A', 'c', 'c', 'u', 'e', 'i', 'l'],
            r.items@.last().on_press == Some(on_press),
            r.items@.last().icon == Some(icon),
            r.separator == self.separator,
    {
        proof {
            reveal_strlit("Accueil");
            assert("Accueil"@ =~= seq!['A', 'c', 'c', 'u', 'e', 'i', 'l']);
        }
        self.push_item_with_icon("Accueil", icon, Some(on_press))
    }
}

/// One piece of a trail as it is shown.
pub enum CrumbPiece<E, Message> {
    Item(BreadcrumbItem<E, Message>),
    Separator(String),
}

/// The steps in order with the separator between each two of them.
pub open spec fn crumbs_spec<E, M>(items: Seq<BreadcrumbItem<E, M>>, sep: String) -> Seq<CrumbPiece<E, M>>
    decreases items.len(),
{
    if items.len() == 0 {
        Seq::empty()
    } else {
        let between = if items.len() > 1 { seq![CrumbPiece::Separator(sep)] } else { Seq::empty() };
        crumbs_spec(items.drop_last(), sep) + between + seq![CrumbPiece::Item(items.last())]
    }
}

impl<E, Message> Breadcrumbs<E, Message> {
    /// The trail's pieces: each step (its icon and label, pressable when it
    /// has a message), with the separator text between steps.
    pub fn layout(self) -> (r: Vec<CrumbPiece<E, Message>>)
        ensures
            r@ == crumbs_spec(self.items@, self.separator),
    {
        let sep = self.separator;
        let ghost all = self.items@;
        let mut rest = self.items;
        let mut pieces: Vec<CrumbPiece<E, Message>> = Vec::new();
        let mut n: usize = 0;
        proof {
            assert(all.len() == rest.len());
            assert(all.take(0) =~= Seq::<BreadcrumbItem<E, Message>>::empty());
        }
        while rest.len() > 0
            invariant
                n + rest@.len() == all.len(),
                all.len() <= usize::MAX,
                rest@ == all.skip(n as int),
                pieces@ == crumbs_spec(all.take(n as int), sep),
            decreases rest.len(),
        {
            let item = rest.remove(0);
            proof {
                assert(all.skip(n as int)[0] == all[n as int]);
                assert(rest@ =~= all.skip(n + 1));
                assert(all.take(n + 1).drop_last() =~= all.take(n as int));
                assert(all.take(n + 1).last() == item);
            }
            let ghost before = pieces@;
            if n > 0 {
                pieces.push(CrumbPiece::Separator(sep.clone()));
            }
            pieces.push(CrumbPiece::Item(item));
            proof {
                let between = if n + 1 > 1 { seq![CrumbPiece::Separator(sep)] } else { Seq::empty() };
                assert(pieces@ =~= before + between + seq![CrumbPiece::Item(item)]);
            }
            n = n + 1;
        }
        proof {
            assert(all.take(all.len() as int) =~= all);
        }
        pieces
    }
}

} // verus!
