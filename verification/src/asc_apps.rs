//! The apps of an App Store Connect account.

use crate::hub::{ServiceOperationRequest, ServiceOperationRequestView};
use crate::input::ServiceInput;
use crate::lookup::HasId;
use crate::text::{lemma_text_le_antisymmetric, lemma_text_le_total, lemma_text_le_transitive};
use crate::text::{opt_clone, str_eq, str_le, text_le};
use vstd::prelude::*;

verus! {

/// The identifier of the App Store Connect provider.
pub const APP_STORE_CONNECT_PROVIDER_ID: &'static str = "app-store-connect";

/// An app of the account.
#[derive(Debug, PartialEq, Eq)]
pub struct AscAppSummary {
    pub id: String,
    pub name: String,
    pub bundle_id: String,
    pub sku: String,
    pub primary_locale: Option<String>,
}

/// The value of an [`AscAppSummary`].
#[verifier::ext_equal]
pub struct AscAppSummaryView {
    pub id: Seq<char>,
    pub name: Seq<char>,
    pub bundle_id: Seq<char>,
    pub sku: Seq<char>,
    pub primary_locale: Option<Seq<char>>,
}

impl DeepView for AscAppSummary {
    type V = AscAppSummaryView;

    open spec fn deep_view(&self) -> AscAppSummaryView {
        AscAppSummaryView {
            id: self.id@,
            name: self.name@,
            bundle_id: self.bundle_id@,
            sku: self.sku@,
            primary_locale: self.primary_locale.deep_view(),
        }
    }
}

impl Clone for AscAppSummary {
    fn clone(&self) -> (r: Self)
        ensures
            r.deep_view() == self.deep_view(),
    {
        AscAppSummary {
            id: self.id.clone(),
            name: self.name.clone(),
            bundle_id: self.bundle_id.clone(),
            sku: self.sku.clone(),
            primary_locale: opt_clone(&self.primary_locale),
        }
    }
}

impl HasId for AscAppSummary {
    open spec fn view_id(v: AscAppSummaryView) -> Seq<char> {
        v.id
    }

    fn id_str(&self) -> (r: &str) {
        self.id.as_str()
    }
}

/// What App Store Connect says of an app.
#[derive(Debug, PartialEq, Eq)]
pub struct AscAppAttributes {
    pub name: String,
    pub bundle_id: String,
    pub sku: String,
    pub primary_locale: Option<String>,
}

/// The value of an [`AscAppAttributes`].
#[verifier::ext_equal]
pub struct AscAppAttributesView {
    pub name: Seq<char>,
    pub bundle_id: Seq<char>,
    pub sku: Seq<char>,
    pub primary_locale: Option<Seq<char>>,
}

impl DeepView for AscAppAttributes {
    type V = AscAppAttributesView;

    open spec fn deep_view(&self) -> AscAppAttributesView {
        AscAppAttributesView {
            name: self.name@,
            bundle_id: self.bundle_id@,
            sku: self.sku@,
            primary_locale: self.primary_locale.deep_view(),
        }
    }
}

impl Clone for AscAppAttributes {
    fn clone(&self) -> (r: Self)
        ensures
            r.deep_view() == self.deep_view(),
    {
        AscAppAttributes {
            name: self.name.clone(),
            bundle_id: self.bundle_id.clone(),
            sku: self.sku.clone(),
            primary_locale: opt_clone(&self.primary_locale),
        }
    }
}

/// An app in a listing.
#[derive(Debug, PartialEq, Eq)]
pub struct AscAppRecord {
    pub id: String,
    pub attributes: AscAppAttributes,
}

/// The value of an [`AscAppRecord`].
#[verifier::ext_equal]
pub struct AscAppRecordView {
    pub id: Seq<char>,
    pub attributes: AscAppAttributesView,
}

impl DeepView for AscAppRecord {
    type V = AscAppRecordView;

    open spec fn deep_view(&self) -> AscAppRecordView {
        AscAppRecordView {
            id: self.id@,
            attributes: self.attributes.deep_view(),
        }
    }
}

impl Clone for AscAppRecord {
    fn clone(&self) -> (r: Self)
        ensures
            r.deep_view() == self.deep_view(),
    {
        AscAppRecord {
            id: self.id.clone(),
            attributes: self.attributes.clone(),
        }
    }
}

/// A listing of apps.
#[derive(Debug, PartialEq, Eq)]
pub struct AscAppsResponse {
    pub data: Vec<AscAppRecord>,
}

/// The value of an [`AscAppsResponse`].
#[verifier::ext_equal]
pub struct AscAppsResponseView {
    pub data: Seq<AscAppRecordView>,
}

impl DeepView for AscAppsResponse {
    type V = AscAppsResponseView;

    open spec fn deep_view(&self) -> AscAppsResponseView {
        AscAppsResponseView {
            data: self.data.deep_view(),
        }
    }
}

impl Clone for AscAppsResponse {
    fn clone(&self) -> (r: Self)
        ensures
            r.deep_view() == self.deep_view(),
    {
        let r = AscAppsResponse {
            data: self.data.clone(),
        };
        assert(r.data.deep_view() =~= self.data.deep_view());
        r
    }
}

/// What is asked for to list the apps.
pub open spec fn apps_request() -> ServiceOperationRequestView {
    ServiceOperationRequestView {
        provider_id: APP_STORE_CONNECT_PROVIDER_ID@,
        operation: "list_apps"@,
        resource: None,
        artifact: None,
        input: Map::empty().insert("paginate"@, "true"@),
    }
}

/// What is asked for to list the apps.
pub fn list_apps_request() -> (r: ServiceOperationRequest)
    ensures
        r.deep_view() == apps_request(),
{
    ServiceOperationRequest {
        provider_id: APP_STORE_CONNECT_PROVIDER_ID.to_owned(),
        operation: "list_apps".to_owned(),
        resource: None,
        artifact: None,
        input: ServiceInput::new().with("paginate", "true".to_owned()),
    }
}

/// The app that a record describes.
pub open spec fn app_of_record(record: AscAppRecordView) -> AscAppSummaryView {
    AscAppSummaryView {
        id: record.id,
        name: record.attributes.name,
        bundle_id: record.attributes.bundle_id,
        sku: record.attributes.sku,
        primary_locale: record.attributes.primary_locale,
    }
}

/// The apps that the records describe, in the order of the records.
pub open spec fn apps_of_records(records: Seq<AscAppRecordView>) -> Seq<AscAppSummaryView> {
    records.map_values(|record: AscAppRecordView| app_of_record(record))
}

/// `a` stands no later than `b`: by name, and by bundle identifier where the names agree.
pub open spec fn app_le(a: AscAppSummaryView, b: AscAppSummaryView) -> bool {
    if a.name == b.name {
        text_le(a.bundle_id, b.bundle_id)
    } else {
        text_le(a.name, b.name)
    }
}

/// The order does not tell `a` and `b` apart.
pub open spec fn same_rank(a: AscAppSummaryView, b: AscAppSummaryView) -> bool {
    a.name == b.name && a.bundle_id == b.bundle_id
}

/// Those of `apps` that the order does not tell from `app`.
pub open spec fn of_rank(apps: Seq<AscAppSummaryView>, app: AscAppSummaryView) -> Seq<
    AscAppSummaryView,
> {
    apps.filter(|other: AscAppSummaryView| same_rank(other, app))
}

/// Each app stands no later than those after it.
pub open spec fn apps_sorted(apps: Seq<AscAppSummaryView>) -> bool {
    forall|i: int, j: int|
        0 <= i <= j < apps.len() ==> app_le(#[trigger] apps[i], #[trigger] apps[j])
}

/// `after` holds the apps of `before`, those of one rank in the same order.
pub open spec fn stable_rearrangement(
    before: Seq<AscAppSummaryView>,
    after: Seq<AscAppSummaryView>,
) -> bool {
    forall|app: AscAppSummaryView| #[trigger] of_rank(after, app) == of_rank(before, app)
}

/// The order of apps is total.
pub proof fn lemma_app_le_total(a: AscAppSummaryView, b: AscAppSummaryView)
    ensures
        app_le(a, b) || app_le(b, a),
{
    lemma_text_le_total(a.name, b.name);
    lemma_text_le_total(a.bundle_id, b.bundle_id);
}

/// The order of apps is transitive.
pub proof fn lemma_app_le_transitive(
    a: AscAppSummaryView,
    b: AscAppSummaryView,
    c: AscAppSummaryView,
)
    requires
        app_le(a, b),
        app_le(b, c),
    ensures
        app_le(a, c),
{
    if a.name == b.name && b.name == c.name {
        lemma_text_le_transitive(a.bundle_id, b.bundle_id, c.bundle_id);
    } else if a.name != b.name && b.name != c.name {
        lemma_text_le_transitive(a.name, b.name, c.name);
        if a.name == c.name {
            lemma_text_le_antisymmetric(a.name, b.name);
        }
    }
}

/// Two apps that stand no later than each other are of one rank.
pub proof fn lemma_app_le_antisymmetric(a: AscAppSummaryView, b: AscAppSummaryView)
    requires
        app_le(a, b),
        app_le(b, a),
    ensures
        same_rank(a, b),
{
    if a.name == b.name {
        lemma_text_le_antisymmetric(a.bundle_id, b.bundle_id);
    } else {
        lemma_text_le_antisymmetric(a.name, b.name);
    }
}

proof fn lemma_none_of_rank(apps: Seq<AscAppSummaryView>, app: AscAppSummaryView)
    requires
        forall|i: int| 0 <= i < apps.len() ==> !same_rank(#[trigger] apps[i], app),
    ensures
        of_rank(apps, app) == Seq::<AscAppSummaryView>::empty(),
    decreases apps.len(),
{
    reveal(Seq::filter);
    if apps.len() > 0 {
        assert forall|i: int| 0 <= i < apps.drop_last().len() implies !same_rank(
            #[trigger] apps.drop_last()[i],
            app,
        ) by {
            assert(apps.drop_last()[i] == apps[i]);
        }
        lemma_none_of_rank(apps.drop_last(), app);
        assert(!same_rank(apps[apps.len() - 1], app));
    }
}

proof fn lemma_insert_of_rank(
    apps: Seq<AscAppSummaryView>,
    at: int,
    new: AscAppSummaryView,
    app: AscAppSummaryView,
)
    requires
        0 <= at <= apps.len(),
        forall|i: int| at <= i < apps.len() ==> !app_le(#[trigger] apps[i], new),
    ensures
        of_rank(apps.insert(at, new), app) == of_rank(apps.push(new), app),
{
    let pred = |other: AscAppSummaryView| same_rank(other, app);
    let head = apps.take(at);
    let tail = apps.skip(at);
    assert(apps =~= head + tail);
    assert(apps.insert(at, new) =~= head + (seq![new] + tail));
    assert(apps.push(new) =~= head + (tail + seq![new]));
    Seq::filter_distributes_over_add(head, seq![new] + tail, pred);
    Seq::filter_distributes_over_add(seq![new], tail, pred);
    Seq::filter_distributes_over_add(head, tail + seq![new], pred);
    Seq::filter_distributes_over_add(tail, seq![new], pred);
    if same_rank(new, app) {
        assert forall|i: int| 0 <= i < tail.len() implies !same_rank(#[trigger] tail[i], app) by {
            assert(!app_le(apps[at + i], new));
            lemma_text_le_total(new.bundle_id, new.bundle_id);
        }
        lemma_none_of_rank(tail, app);
        assert(seq![new].filter(pred) + tail.filter(pred) =~= tail.filter(pred)
            + seq![new].filter(pred));
    } else {
        assert forall|i: int| 0 <= i < seq![new].len() implies !same_rank(
            #[trigger] seq![new][i],
            app,
        ) by {
            assert(seq![new][i] == new);
        }
        lemma_none_of_rank(seq![new], app);
        assert(seq![new].filter(pred) + tail.filter(pred) =~= tail.filter(pred)
            + seq![new].filter(pred));
    }
}

proof fn lemma_insert_sorted(apps: Seq<AscAppSummaryView>, at: int, new: AscAppSummaryView)
    requires
        0 <= at <= apps.len(),
        apps_sorted(apps),
        at > 0 ==> app_le(apps[at - 1], new),
        forall|i: int| at <= i < apps.len() ==> !app_le(#[trigger] apps[i], new),
    ensures
        apps_sorted(apps.insert(at, new)),
{
    let after = apps.insert(at, new);
    assert forall|i: int, j: int| 0 <= i <= j < after.len() implies app_le(
        #[trigger] after[i],
        #[trigger] after[j],
    ) by {
        if i == at && j == at {
            lemma_app_le_total(new, new);
        } else if i == at {
            assert(after[j] == apps[j - 1]);
            lemma_app_le_total(apps[j - 1], new);
        } else if j == at {
            assert(app_le(apps[i], apps[at - 1]));
            lemma_app_le_transitive(apps[i], apps[at - 1], new);
        } else if j < at {
            assert(app_le(apps[i], apps[j]));
        } else if i < at {
            assert(app_le(apps[i], apps[j - 1]));
        } else {
            assert(app_le(apps[i - 1], apps[j - 1]));
        }
    }
}

/// The order of a listing is determined: there is one way to sort apps that keeps those of one rank
/// in the order in which they came.
pub proof fn lemma_sorted_in_one_way(a: Seq<AscAppSummaryView>, b: Seq<AscAppSummaryView>)
    requires
        apps_sorted(a),
        apps_sorted(b),
        stable_rearrangement(a, b),
    ensures
        a == b,
    decreases a.len(),
{
    reveal(Seq::filter);
    if a.len() == 0 {
        if b.len() > 0 {
            lemma_rank_is_found(b, b.len() - 1);
            assert(of_rank(b, b.last()) == of_rank(a, b.last()));
        }
        assert(a =~= b);
    } else {
        let x = a.last();
        lemma_rank_is_found(a, a.len() - 1);
        assert(of_rank(b, x) == of_rank(a, x));
        lemma_rank_comes_from(b, x);
        let i = choose|i: int| 0 <= i < b.len() && same_rank(#[trigger] b[i], x);
        let y = b.last();
        assert(app_le(b[i], b[b.len() - 1]));
        lemma_rank_is_found(b, b.len() - 1);
        assert(of_rank(b, y) == of_rank(a, y));
        lemma_rank_comes_from(a, y);
        let j = choose|j: int| 0 <= j < a.len() && same_rank(#[trigger] a[j], y);
        assert(app_le(a[j], a[a.len() - 1]));
        lemma_app_le_antisymmetric(x, y);
        assert(of_rank(a, x).last() == x);
        assert(of_rank(b, x).last() == y);
        let p = a.drop_last();
        let q = b.drop_last();
        assert forall|k: AscAppSummaryView| #[trigger] of_rank(q, k) == of_rank(p, k) by {
            assert(of_rank(b, k) == of_rank(a, k));
            if same_rank(x, k) {
                assert(of_rank(a, k).drop_last() =~= of_rank(p, k));
                assert(of_rank(b, k).drop_last() =~= of_rank(q, k));
            }
        }
        assert forall|i: int, j: int| 0 <= i <= j < p.len() implies app_le(
            #[trigger] p[i],
            #[trigger] p[j],
        ) by {
            assert(app_le(a[i], a[j]));
        }
        assert forall|i: int, j: int| 0 <= i <= j < q.len() implies app_le(
            #[trigger] q[i],
            #[trigger] q[j],
        ) by {
            assert(app_le(b[i], b[j]));
        }
        lemma_sorted_in_one_way(p, q);
        assert(a =~= p.push(x));
        assert(b =~= q.push(y));
    }
}

proof fn lemma_rank_is_found(apps: Seq<AscAppSummaryView>, i: int)
    requires
        0 <= i < apps.len(),
    ensures
        of_rank(apps, apps[i]).len() > 0,
{
    let pred = |other: AscAppSummaryView| same_rank(other, apps[i]);
    apps.lemma_filter_contains(pred, i);
}

proof fn lemma_rank_comes_from(apps: Seq<AscAppSummaryView>, app: AscAppSummaryView)
    requires
        of_rank(apps, app).len() > 0,
    ensures
        exists|i: int| 0 <= i < apps.len() && same_rank(#[trigger] apps[i], app),
{
    let pred = |other: AscAppSummaryView| same_rank(other, app);
    let found = apps.filter(pred)[0];
    apps.lemma_filter_pred(pred, 0);
    assert(apps.filter(pred).contains(found));
    apps.lemma_filter_contains_rev(pred, found);
}

fn stands_no_later(a: &AscAppSummary, b: &AscAppSummary) -> (r: bool)
    ensures
        r == app_le(a.deep_view(), b.deep_view()),
{
    if str_eq(a.name.as_str(), b.name.as_str()) {
        str_le(a.bundle_id.as_str(), b.bundle_id.as_str())
    } else {
        str_le(a.name.as_str(), b.name.as_str())
    }
}

/// The apps of a listing, ordered by name and then by bundle identifier. Apps that agree in
/// both keep the order of the listing.
pub fn apps_from_response(response: AscAppsResponse) -> (r: Vec<AscAppSummary>)
    ensures
        apps_sorted(r.deep_view()),
        stable_rearrangement(apps_of_records(response.deep_view().data), r.deep_view()),
{
    let mut apps: Vec<AscAppSummary> = Vec::new();
    let ghost listed = apps_of_records(response.deep_view().data);
    let mut i: usize = 0;
    assert(listed.take(0) =~= apps.deep_view());
    while i < response.data.len()
        invariant
            i <= response.data@.len(),
            listed == apps_of_records(response.deep_view().data),
            apps@.len() == i,
            apps_sorted(apps.deep_view()),
            stable_rearrangement(listed.take(i as int), apps.deep_view()),
        decreases response.data@.len() - i,
    {
        let record = &response.data[i];
        let app = AscAppSummary {
            id: record.id.clone(),
            name: record.attributes.name.clone(),
            bundle_id: record.attributes.bundle_id.clone(),
            sku: record.attributes.sku.clone(),
            primary_locale: opt_clone(&record.attributes.primary_locale),
        };
        let mut at: usize = apps.len();
        while at > 0 && !stands_no_later(&apps[at - 1], &app)
            invariant
                at <= apps@.len(),
                forall|k: int|
                    at <= k < apps@.len() ==> !app_le(
                        #[trigger] apps.deep_view()[k],
                        app.deep_view(),
                    ),
            decreases at,
        {
            at = at - 1;
        }
        let ghost before = apps.deep_view();
        let ghost new = app.deep_view();
        proof {
            lemma_insert_sorted(before, at as int, new);
            assert(listed[i as int] == new);
            assert forall|key: AscAppSummaryView| #[trigger]
                of_rank(before.insert(at as int, new), key) == of_rank(
                listed.take(i + 1),
                key,
            ) by {
                lemma_insert_of_rank(before, at as int, new, key);
                let pred = |other: AscAppSummaryView| same_rank(other, key);
                assert(listed.take(i + 1) =~= listed.take(i as int) + seq![new]);
                assert(before.push(new) =~= before + seq![new]);
                assert(of_rank(before, key) == of_rank(listed.take(i as int), key));
                Seq::filter_distributes_over_add(before, seq![new], pred);
                Seq::filter_distributes_over_add(listed.take(i as int), seq![new], pred);
            }
        }
        apps.insert(at, app);
        assert(apps.deep_view() =~= before.insert(at as int, new));
        i = i + 1;
    }
    assert(listed.take(i as int) =~= listed);
    apps
}

} // verus!
