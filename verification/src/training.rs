//! Training infrastructure: datasets, splits, epoch plans, early stopping,
//! evaluation counts and cross-validation folds.
//!
//! Everything here is the discrete side of training. A numeric backend runs
//! the gradient steps and the forward passes; it hands back predictions and
//! counts, and this module decides which examples are visited, when training
//! stops and how the results are tallied.

use crate::features::is_feature_vector;
use crate::reservoir::LengthMismatch;
use crate::router::Router;
use crate::types::{ConversationTurn, Fraction, RoutingDecision};
use vstd::prelude::*;

verus! {

/// Number of routing classes that the classifier separates.
pub const CLASS_COUNT: usize = 3;

/// The class label of a routing decision: local is 0, remote is 1, hybrid is
/// 2; blocked queries are counted as local.
pub open spec fn label_of(decision: RoutingDecision) -> usize {
    match decision {
        RoutingDecision::Local => 0,
        RoutingDecision::Remote => 1,
        RoutingDecision::Hybrid => 2,
        RoutingDecision::Blocked => 0,
    }
}

/// The indices `0, 1, .., n - 1`.
pub open spec fn identity(n: nat) -> Seq<usize> {
    Seq::new(n, |i: int| i as usize)
}

/// `order` visits every index below `n` exactly once.
pub open spec fn is_permutation(order: Seq<usize>, n: nat) -> bool {
    order.to_multiset() == identity(n).to_multiset()
}

/// Number of positions at which `predictions` and `labels` agree.
pub open spec fn matches(predictions: Seq<usize>, labels: Seq<usize>) -> nat
    decreases predictions.len(),
{
    if predictions.len() == 0 || labels.len() != predictions.len() {
        0
    } else {
        matches(predictions.drop_last(), labels.drop_last()) + if predictions.last()
            == labels.last() {
            1nat
        } else {
            0nat
        }
    }
}

/// Number of positions with true label `t` and prediction `p`.
pub open spec fn confusions(predictions: Seq<usize>, labels: Seq<usize>, t: int, p: int) -> nat
    decreases predictions.len(),
{
    if predictions.len() == 0 || labels.len() != predictions.len() {
        0
    } else {
        confusions(predictions.drop_last(), labels.drop_last(), t, p) + if labels.last() == t
            && predictions.last() == p {
            1nat
        } else {
            0nat
        }
    }
}

/// Trusted: shuffles a vector in place with
/// `rand::seq::SliceRandom::shuffle`, driven by `rand::thread_rng`. The
/// shuffle only swaps elements, so the vector holds the same elements as
/// before; nothing is claimed about their order.
#[verifier::external_body]
pub(crate) fn shuffle(v: &mut Vec<usize>)
    ensures
        final(v)@.to_multiset() == old(v)@.to_multiset(),
{
    rand::seq::SliceRandom::shuffle(v.as_mut_slice(), &mut rand::thread_rng());
}

/// Training data for the routing classifier: feature vectors of any
/// representation `F`, with one class label each.
#[derive(Debug)]
pub struct RouterTrainingData<F> {
    /// Feature vectors.
    pub features: Vec<F>,
    /// Labels (0 is local, 1 is remote, 2 is hybrid).
    pub labels: Vec<usize>,
}

impl<F> RouterTrainingData<F> {
    /// Every example has a label.
    pub open spec fn wf(&self) -> bool {
        self.features@.len() == self.labels@.len()
    }

    /// Creates empty training data.
    pub fn new() -> (d: Self)
        ensures
            d.features@.len() == 0,
            d.labels@.len() == 0,
            d.wf(),
    {
        RouterTrainingData { features: Vec::new(), labels: Vec::new() }
    }

    /// Adds a training example.
    pub fn add_example(&mut self, features: F, label: RoutingDecision)
        ensures
            final(self).features@ == old(self).features@.push(features),
            final(self).labels@ == old(self).labels@.push(label_of(label)),
            old(self).wf() ==> final(self).wf(),
    {
        self.features.push(features);
        self.labels.push(
            match label {
                RoutingDecision::Local => 0,
                RoutingDecision::Remote => 1,
                RoutingDecision::Hybrid => 2,
                RoutingDecision::Blocked => 0,
            },
        );
    }

    /// Number of examples.
    pub fn len(&self) -> (n: usize)
        ensures
            n == self.features@.len(),
    {
        self.features.len()
    }

    /// Whether there are no examples.
    pub fn is_empty(&self) -> (b: bool)
        ensures
            b == (self.features@.len() == 0),
    {
        self.features.len() == 0
    }
}

impl<F: Clone> RouterTrainingData<F> {
    /// `part` holds copies of the examples at the positions
    /// `order[from], .., order[to - 1]`, in that order.
    pub open spec fn selects(&self, part: Self, order: Seq<usize>, from: int, to: int) -> bool {
        &&& part.features@.len() == to - from
        &&& part.labels@.len() == to - from
        &&& forall|k: int|
            0 <= k < to - from ==> cloned::<F>(
                self.features@[order[from + k] as int],
                #[trigger] part.features@[k],
            )
        &&& forall|k: int|
            0 <= k < to - from ==> #[trigger] part.labels@[k] == self.labels@[order[from
                + k] as int]
    }

    /// Copies the examples at the positions `order[from], .., order[to - 1]`.
    pub fn select(&self, order: &Vec<usize>, from: usize, to: usize) -> (part: Self)
        requires
            self.wf(),
            from <= to <= order@.len(),
            forall|k: int| 0 <= k < order@.len() ==> (#[trigger] order@[k]) < self.features@.len(),
        ensures
            self.selects(part, order@, from as int, to as int),
            part.wf(),
    {
        let mut features: Vec<F> = Vec::new();
        let mut labels: Vec<usize> = Vec::new();
        let mut k: usize = from;
        while k < to
            invariant
                self.wf(),
                from <= k <= to <= order@.len(),
                forall|j: int|
                    0 <= j < order@.len() ==> (#[trigger] order@[j]) < self.features@.len(),
                features@.len() == k - from,
                labels@.len() == k - from,
                forall|j: int|
                    0 <= j < k - from ==> cloned::<F>(
                        self.features@[order@[from + j] as int],
                        #[trigger] features@[j],
                    ),
                forall|j: int|
                    0 <= j < k - from ==> #[trigger] labels@[j] == self.labels@[order@[from
                        + j] as int],
            decreases to - k,
        {
            let idx: usize = order[k];
            features.push(self.features[idx].clone());
            labels.push(self.labels[idx]);
            k += 1;
        }
        RouterTrainingData { features, labels }
    }

    /// Splits the examples by a given order: the first `n_train` positions of
    /// `order` make the training set, the rest the test set.
    pub fn split_by_order(&self, order: &Vec<usize>, n_train: usize) -> (parts: (Self, Self))
        requires
            self.wf(),
            n_train <= order@.len(),
            forall|k: int| 0 <= k < order@.len() ==> (#[trigger] order@[k]) < self.features@.len(),
        ensures
            self.selects(parts.0, order@, 0, n_train as int),
            self.selects(parts.1, order@, n_train as int, order@.len() as int),
            parts.0.wf(),
            parts.1.wf(),
    {
        let train = self.select(order, 0, n_train);
        let test = self.select(order, n_train, order.len());
        (train, test)
    }

    /// Splits into a training and a test set.
    ///
    /// The examples are shuffled; the first `floor(len * ratio)` of them make
    /// the training set and the rest the test set. No class balance is
    /// sought. The shuffle is random: what holds of every outcome is that
    /// some permutation of the positions was used.
    pub fn train_test_split(&self, train_ratio: Fraction) -> (parts: (Self, Self))
        requires
            self.wf(),
            train_ratio.is_proportion(),
        ensures
            parts.0.features@.len() == train_count(self.features@.len(), train_ratio),
            parts.0.features@.len() + parts.1.features@.len() == self.features@.len(),
            parts.0.wf(),
            parts.1.wf(),
            exists|order: Seq<usize>|
                is_permutation(order, self.features@.len()) && self.selects(
                    parts.0,
                    order,
                    0,
                    train_count(self.features@.len(), train_ratio) as int,
                ) && self.selects(
                    parts.1,
                    order,
                    train_count(self.features@.len(), train_ratio) as int,
                    self.features@.len() as int,
                ),
    {
        let n = self.features.len();
        let n_train = train_size(n, train_ratio);
        let mut order = indices(n);
        shuffle(&mut order);
        proof {
            lemma_permutation_in_range(order@, n as nat);
        }
        let parts = self.split_by_order(&order, n_train);
        proof {
            assert(is_permutation(order@, self.features@.len()));
        }
        parts
    }
}

/// Size of the training set: `floor(n * ratio)`.
pub open spec fn train_count(n: nat, ratio: Fraction) -> nat {
    ((n * ratio.num) / (ratio.den as int)) as nat
}

/// Computes the size of the training set.
pub fn train_size(n: usize, ratio: Fraction) -> (k: usize)
    requires
        ratio.is_proportion(),
    ensures
        k == train_count(n as nat, ratio),
        k <= n,
{
    let ghost x = n * ratio.num;
    let ghost y = ratio.den * n;
    proof {
        assert(x <= y) by (nonlinear_arith)
            requires
                x == n * ratio.num,
                y == ratio.den * n,
                ratio.num <= ratio.den,
                0 <= n,
        ;
        assert(0 <= x) by (nonlinear_arith)
            requires
                x == n * ratio.num,
                0 <= n,
                0 <= ratio.num,
        ;
        assert(x <= 0xFFFF_FFFF_FFFF_FFFF * 0xFFFF_FFFF_FFFF_FFFF) by (nonlinear_arith)
            requires
                x == n * ratio.num,
                0 <= n <= 0xFFFF_FFFF_FFFF_FFFF,
                0 <= ratio.num <= 0xFFFF_FFFF_FFFF_FFFF,
        ;
        vstd::arithmetic::div_mod::lemma_div_is_ordered(x, y, ratio.den as int);
        vstd::arithmetic::div_mod::lemma_div_multiples_vanish(n as int, ratio.den as int);
        vstd::arithmetic::div_mod::lemma_div_pos_is_pos(x, ratio.den as int);
        assert(x / (ratio.den as int) <= n);
    }
    let product: u128 = (n as u128) * (ratio.num as u128);
    (product / (ratio.den as u128)) as usize
}

/// The indices `0, 1, .., n - 1`.
pub fn indices(n: usize) -> (v: Vec<usize>)
    ensures
        v@ == identity(n as nat),
{
    let mut v: Vec<usize> = Vec::new();
    let mut i: usize = 0;
    while i < n
        invariant
            i <= n,
            v@ == identity(i as nat),
        decreases n - i,
    {
        v.push(i);
        proof {
            assert(v@ =~= identity((i + 1) as nat));
        }
        i += 1;
    }
    v
}

/// A permutation of the indices below `n` has `n` entries, all below `n`.
pub proof fn lemma_permutation_in_range(order: Seq<usize>, n: nat)
    requires
        is_permutation(order, n),
    ensures
        order.len() == n,
        forall|k: int| 0 <= k < order.len() ==> (#[trigger] order[k]) < n,
{
    broadcast use vstd::seq_lib::group_to_multiset_ensures;

    order.to_multiset_ensures();
    identity(n).to_multiset_ensures();
    assert forall|k: int| 0 <= k < order.len() implies (#[trigger] order[k]) < n by {
        let a = order[k];
        assert(order.contains(a));
        assert(order.to_multiset().count(a) > 0);
        assert(identity(n).to_multiset().count(a) > 0);
        assert(identity(n).contains(a));
        let j = choose|j: int| 0 <= j < identity(n).len() && identity(n)[j] == a;
        assert(identity(n)[j] == j as usize);
    }
}

/// The labels as a one-hot target: entry `label` is 1, the others are 0.
pub fn one_hot(label: usize, num_classes: usize) -> (target: Vec<u8>)
    requires
        label < num_classes,
    ensures
        target@.len() == num_classes,
        forall|i: int|
            0 <= i < num_classes ==> #[trigger] target@[i] == if i == label {
                1u8
            } else {
                0u8
            },
{
    let mut target: Vec<u8> = Vec::new();
    let mut i: usize = 0;
    while i < num_classes
        invariant
            i <= num_classes,
            target@.len() == i,
            forall|j: int|
                0 <= j < i ==> #[trigger] target@[j] == if j == label {
                    1u8
                } else {
                    0u8
                },
        decreases num_classes - i,
    {
        target.push(if i == label { 1 } else { 0 });
        i += 1;
    }
    target
}

/// Training configuration for the classifier.
#[derive(Clone, Copy, Debug, PartialEq, Eq, Structural)]
pub struct MLPTrainingConfig {
    /// Learning rate.
    pub learning_rate: Fraction,
    /// Number of epochs.
    pub epochs: usize,
    /// Batch size (0 means one batch with all examples).
    pub batch_size: usize,
    /// Early stopping patience (epochs without improvement).
    pub patience: usize,
    /// L2 regularisation strength.
    pub l2_reg: Fraction,
}

impl Default for MLPTrainingConfig {
    fn default() -> (c: Self)
        ensures
            c == (MLPTrainingConfig {
                learning_rate: Fraction { num: 1, den: 100 },
                epochs: 100,
                batch_size: 32,
                patience: 10,
                l2_reg: Fraction { num: 1, den: 1000 },
            }),
    {
        MLPTrainingConfig {
            learning_rate: Fraction { num: 1, den: 100 },
            epochs: 100,
            batch_size: 32,
            patience: 10,
            l2_reg: Fraction { num: 1, den: 1000 },
        }
    }
}

/// A contiguous range of examples, `start` included and `end` excluded.
#[derive(Clone, Copy, Debug, PartialEq, Eq, Structural)]
pub struct Batch {
    /// First example of the range.
    pub start: usize,
    /// One past the last example of the range.
    pub end: usize,
}

/// Whether an epoch over `n` examples runs in mini-batches.
pub open spec fn uses_mini_batches(batch_size: usize, n: usize) -> bool {
    0 < batch_size < n
}

/// The batches of one epoch over `n` examples.
///
/// In mini-batch mode there are `n / batch_size` full batches; examples
/// beyond the last full batch are not visited. Otherwise one batch holds
/// every example.
pub open spec fn epoch_plan(batch_size: usize, n: usize) -> Seq<Batch> {
    if uses_mini_batches(batch_size, n) {
        Seq::new(
            (n / batch_size) as nat,
            |b: int| Batch { start: (b * batch_size) as usize, end: (b * batch_size + batch_size) as usize },
        )
    } else {
        seq![Batch { start: 0, end: n }]
    }
}

/// Progress of one training run.
#[derive(Clone, Copy, Debug, PartialEq, Eq, Structural)]
pub struct TrainingProgress {
    /// Number of epochs that have been trained.
    pub epochs_done: usize,
    /// Largest number of correct validation predictions seen so far.
    pub best_correct: usize,
    /// Number of epochs in a row that did not improve on the best.
    pub stale: usize,
    /// Whether early stopping has ended the run.
    pub stopped: bool,
}

/// The progress before the first epoch.
pub open spec fn initial_progress() -> TrainingProgress {
    TrainingProgress { epochs_done: 0, best_correct: 0, stale: 0, stopped: false }
}

/// The progress after one more epoch.
///
/// `correct` is the number of correct predictions on the validation set, or
/// `None` when there is no validation set. An epoch that beats the best
/// count resets the stale counter. Any other validated epoch raises it, and
/// the run stops once the counter reaches the patience.
pub open spec fn after_epoch(
    patience: usize,
    p: TrainingProgress,
    correct: Option<usize>,
) -> TrainingProgress {
    match correct {
        None => TrainingProgress { epochs_done: (p.epochs_done + 1) as usize, ..p },
        Some(c) => if c > p.best_correct {
            TrainingProgress {
                epochs_done: (p.epochs_done + 1) as usize,
                best_correct: c,
                stale: 0,
                stopped: false,
            }
        } else {
            TrainingProgress {
                epochs_done: (p.epochs_done + 1) as usize,
                best_correct: p.best_correct,
                stale: (p.stale + 1) as usize,
                stopped: p.stale + 1 >= patience,
            }
        },
    }
}

/// The progress after a sequence of validated epochs that starts at `p`.
pub open spec fn after_epochs(patience: usize, p: TrainingProgress, counts: Seq<usize>) -> TrainingProgress
    decreases counts.len(),
{
    if counts.len() == 0 {
        p
    } else {
        after_epoch(patience, after_epochs(patience, p, counts.drop_last()), Some(counts.last()))
    }
}

/// Early stopping: a run that is not stopped, followed by epochs that never
/// beat the best validation count, is stopped exactly when the stale counter
/// reaches the patience, and not before.
pub proof fn lemma_stops_after_patience(patience: usize, p: TrainingProgress, counts: Seq<usize>)
    requires
        !p.stopped,
        p.stale < patience,
        p.stale + counts.len() <= usize::MAX,
        p.epochs_done + counts.len() <= usize::MAX,
        p.stale + counts.len() <= patience,
        forall|k: int| 0 <= k < counts.len() ==> #[trigger] counts[k] <= p.best_correct,
    ensures
        after_epochs(patience, p, counts).best_correct == p.best_correct,
        after_epochs(patience, p, counts).stale == p.stale + counts.len(),
        after_epochs(patience, p, counts).epochs_done == p.epochs_done + counts.len(),
        after_epochs(patience, p, counts).stopped == (counts.len() > 0 && p.stale + counts.len()
            == patience),
    decreases counts.len(),
{
    if counts.len() > 0 {
        let front = counts.drop_last();
        assert forall|k: int| 0 <= k < front.len() implies #[trigger] front[k]
            <= p.best_correct by {
            assert(front[k] == counts[k]);
        }
        lemma_stops_after_patience(patience, p, front);
    }
}

/// Result of evaluating predictions against labels.
#[derive(Debug)]
pub struct TrainingMetrics {
    /// Number of correct predictions.
    pub correct: usize,
    /// Number of evaluated examples.
    pub total: usize,
    /// Confusion matrix `[true label][predicted label]`.
    pub confusion_matrix: Vec<Vec<usize>>,
}

/// `m` is the confusion matrix of the predictions against the labels.
pub open spec fn is_confusion_matrix(
    m: Seq<Vec<usize>>,
    predictions: Seq<usize>,
    labels: Seq<usize>,
) -> bool {
    &&& m.len() == CLASS_COUNT
    &&& forall|t: int| 0 <= t < CLASS_COUNT ==> (#[trigger] m[t])@.len() == CLASS_COUNT
    &&& forall|t: int, p: int|
        0 <= t < CLASS_COUNT && 0 <= p < CLASS_COUNT ==> #[trigger] m[t]@[p] == confusions(
            predictions,
            labels,
            t,
            p,
        )
}

/// The bounds of fold `fold` out of `k_folds` over `n` examples: a slice of
/// `n / k_folds` consecutive examples.
pub open spec fn fold_bounds(n: usize, k_folds: usize, fold: int) -> Batch {
    Batch { start: (fold * (n / k_folds)) as usize, end: (fold * (n / k_folds) + n / k_folds) as usize }
}

/// Trainer for the routing classifier.
#[derive(Clone, Copy, Debug, PartialEq, Eq, Structural)]
pub struct MLPTrainer {
    /// The training configuration.
    pub config: MLPTrainingConfig,
}

impl MLPTrainer {
    /// Creates a trainer.
    pub fn new(config: MLPTrainingConfig) -> (t: Self)
        ensures
            t.config == config,
    {
        MLPTrainer { config }
    }

    /// Plans the batches of one epoch over `n` examples.
    pub fn batches(&self, n: usize) -> (plan: Vec<Batch>)
        ensures
            plan@ == epoch_plan(self.config.batch_size, n),
            forall|b: int| 0 <= b < plan@.len() ==> (#[trigger] plan@[b]).start <= plan@[b].end <= n,
    {
        let size = self.config.batch_size;
        let mut plan: Vec<Batch> = Vec::new();
        if size > 0 && size < n {
            let count: usize = n / size;
            let mut b: usize = 0;
            while b < count
                invariant
                    0 < size < n,
                    count == n / size,
                    b <= count,
                    plan@.len() == b,
                    forall|j: int|
                        0 <= j < b ==> #[trigger] plan@[j] == (Batch {
                            start: (j * size) as usize,
                            end: (j * size + size) as usize,
                        }),
                    forall|j: int| 0 <= j < b ==> (#[trigger] plan@[j]).start <= plan@[j].end <= n,
                decreases count - b,
            {
                proof {
                    lemma_batch_fits(n, size, b);
                }
                let start: usize = b * size;
                plan.push(Batch { start, end: start + size });
                b += 1;
            }
            proof {
                assert(plan@ =~= epoch_plan(size, n));
            }
        } else {
            plan.push(Batch { start: 0, end: n });
            proof {
                assert(plan@ =~= epoch_plan(size, n));
            }
        }
        plan
    }

    /// The progress of a run that has not trained any epoch.
    pub fn start(&self) -> (p: TrainingProgress)
        ensures
            p == initial_progress(),
    {
        TrainingProgress { epochs_done: 0, best_correct: 0, stale: 0, stopped: false }
    }

    /// Whether the run goes on with another epoch: it was not stopped and
    /// the epoch budget is not used up.
    pub fn wants_epoch(&self, p: &TrainingProgress) -> (b: bool)
        ensures
            b == (!p.stopped && p.epochs_done < self.config.epochs),
    {
        !p.stopped && p.epochs_done < self.config.epochs
    }

    /// Records one trained epoch. `correct` is the number of correct
    /// predictions on the validation set, if there is one.
    pub fn train(&self, p: &mut TrainingProgress, correct: Option<usize>)
        requires
            !old(p).stopped,
            old(p).epochs_done < self.config.epochs,
            old(p).stale <= old(p).epochs_done,
        ensures
            *final(p) == after_epoch(self.config.patience, *old(p), correct),
            final(p).stale <= final(p).epochs_done,
    {
        p.epochs_done = p.epochs_done + 1;
        match correct {
            None => {},
            Some(c) => {
                if c > p.best_correct {
                    p.best_correct = c;
                    p.stale = 0;
                } else {
                    p.stale = p.stale + 1;
                    if p.stale >= self.config.patience {
                        p.stopped = true;
                    }
                }
            },
        }
    }

    /// Counts the predictions that agree with the labels.
    pub fn evaluate_accuracy(&self, predictions: &Vec<usize>, labels: &Vec<usize>) -> (correct: usize)
        requires
            predictions@.len() == labels@.len(),
        ensures
            correct == matches(predictions@, labels@),
            correct <= labels@.len(),
    {
        let mut correct: usize = 0;
        let mut i: usize = 0;
        while i < predictions.len()
            invariant
                predictions@.len() == labels@.len(),
                i <= predictions@.len(),
                correct <= i,
                correct == matches(predictions@.take(i as int), labels@.take(i as int)),
            decreases predictions.len() - i,
        {
            proof {
                assert(predictions@.take(i + 1).drop_last() =~= predictions@.take(i as int));
                assert(labels@.take(i + 1).drop_last() =~= labels@.take(i as int));
            }
            if predictions[i] == labels[i] {
                correct += 1;
            }
            i += 1;
        }
        proof {
            assert(predictions@.take(predictions@.len() as int) =~= predictions@);
            assert(labels@.take(labels@.len() as int) =~= labels@);
        }
        correct
    }

    /// Tallies the confusion matrix of the predictions against the labels.
    pub fn confusion_matrix(&self, predictions: &Vec<usize>, labels: &Vec<usize>) -> (m: Vec<
        Vec<usize>,
    >)
        requires
            predictions@.len() == labels@.len(),
            forall|i: int| 0 <= i < labels@.len() ==> (#[trigger] labels@[i]) < CLASS_COUNT,
            forall|i: int| 0 <= i < predictions@.len() ==> (#[trigger] predictions@[i]) < CLASS_COUNT,
        ensures
            is_confusion_matrix(m@, predictions@, labels@),
    {
        let mut m: Vec<Vec<usize>> = Vec::new();
        let mut t: usize = 0;
        while t < CLASS_COUNT
            invariant
                t <= CLASS_COUNT,
                m@.len() == t,
                forall|a: int| 0 <= a < t ==> (#[trigger] m@[a])@.len() == CLASS_COUNT,
                forall|a: int, b: int|
                    0 <= a < t && 0 <= b < CLASS_COUNT ==> #[trigger] m@[a]@[b] == 0,
            decreases CLASS_COUNT - t,
        {
            let mut row: Vec<usize> = Vec::new();
            row.push(0);
            row.push(0);
            row.push(0);
            m.push(row);
            t += 1;
        }
        let mut i: usize = 0;
        while i < predictions.len()
            invariant
                predictions@.len() == labels@.len(),
                i <= predictions@.len(),
                forall|k: int| 0 <= k < labels@.len() ==> (#[trigger] labels@[k]) < CLASS_COUNT,
                forall|k: int|
                    0 <= k < predictions@.len() ==> (#[trigger] predictions@[k]) < CLASS_COUNT,
                m@.len() == CLASS_COUNT,
                forall|a: int| 0 <= a < CLASS_COUNT ==> (#[trigger] m@[a])@.len() == CLASS_COUNT,
                forall|a: int, b: int|
                    0 <= a < CLASS_COUNT && 0 <= b < CLASS_COUNT ==> #[trigger] m@[a]@[b]
                        == confusions(predictions@.take(i as int), labels@.take(i as int), a, b),
                forall|a: int, b: int|
                    0 <= a < CLASS_COUNT && 0 <= b < CLASS_COUNT ==> #[trigger] m@[a]@[b] <= i,
            decreases predictions.len() - i,
        {
            let truth: usize = labels[i];
            let pred: usize = predictions[i];
            proof {
                assert(predictions@.take(i + 1).drop_last() =~= predictions@.take(i as int));
                assert(labels@.take(i + 1).drop_last() =~= labels@.take(i as int));
            }
            let mut row = m[truth].clone();
            let bumped: usize = row[pred] + 1;
            row.set(pred, bumped);
            m.set(truth, row);
            i += 1;
        }
        proof {
            assert(predictions@.take(predictions@.len() as int) =~= predictions@);
            assert(labels@.take(labels@.len() as int) =~= labels@);
        }
        m
    }

    /// Evaluates predictions against labels: the number of correct ones, the
    /// number of examples and the confusion matrix.
    pub fn evaluate(&self, predictions: &Vec<usize>, labels: &Vec<usize>) -> (metrics: TrainingMetrics)
        requires
            predictions@.len() == labels@.len(),
            forall|i: int| 0 <= i < labels@.len() ==> (#[trigger] labels@[i]) < CLASS_COUNT,
            forall|i: int| 0 <= i < predictions@.len() ==> (#[trigger] predictions@[i]) < CLASS_COUNT,
        ensures
            metrics.correct == matches(predictions@, labels@),
            metrics.total == labels@.len(),
            is_confusion_matrix(metrics.confusion_matrix@, predictions@, labels@),
    {
        TrainingMetrics {
            correct: self.evaluate_accuracy(predictions, labels),
            total: labels.len(),
            confusion_matrix: self.confusion_matrix(predictions, labels),
        }
    }

    /// Plans a cross-validation over `n` examples: fold `f` validates on the
    /// `f`-th slice of `n / k_folds` consecutive examples and trains on all
    /// the others. The examples are not shuffled.
    pub fn cross_validate(&self, n: usize, k_folds: usize) -> (folds: Vec<Batch>)
        requires
            k_folds > 0,
        ensures
            folds@.len() == k_folds,
            forall|f: int| 0 <= f < k_folds ==> #[trigger] folds@[f] == fold_bounds(n, k_folds, f),
            forall|f: int| 0 <= f < k_folds ==> (#[trigger] folds@[f]).start <= folds@[f].end <= n,
    {
        let size: usize = n / k_folds;
        let mut folds: Vec<Batch> = Vec::new();
        let mut f: usize = 0;
        while f < k_folds
            invariant
                k_folds > 0,
                size == n / k_folds,
                f <= k_folds,
                folds@.len() == f,
                forall|j: int| 0 <= j < f ==> #[trigger] folds@[j] == fold_bounds(n, k_folds, j),
                forall|j: int| 0 <= j < f ==> (#[trigger] folds@[j]).start <= folds@[j].end <= n,
            decreases k_folds - f,
        {
            proof {
                lemma_fold_fits(n, k_folds, f);
            }
            let start: usize = f * size;
            folds.push(Batch { start, end: start + size });
            f += 1;
        }
        folds
    }

    /// Splits the indices below `n` for one fold: those inside the fold
    /// validate, the others train; both lists ascend.
    pub fn fold_indices(n: usize, fold: Batch) -> (parts: (Vec<usize>, Vec<usize>))
        requires
            fold.start <= fold.end <= n,
        ensures
            parts.0@ == identity(fold.start as nat) + Seq::new(
                (n - fold.end) as nat,
                |i: int| (fold.end + i) as usize,
            ),
            parts.1@ == Seq::new((fold.end - fold.start) as nat, |i: int| (fold.start + i) as usize),
    {
        let mut train: Vec<usize> = Vec::new();
        let mut val: Vec<usize> = Vec::new();
        let mut i: usize = 0;
        while i < n
            invariant
                fold.start <= fold.end <= n,
                i <= n,
                i <= fold.start ==> train@ == identity(i as nat) && val@.len() == 0,
                fold.start < i <= fold.end ==> train@ == identity(fold.start as nat) && val@
                    == Seq::new((i - fold.start) as nat, |k: int| (fold.start + k) as usize),
                fold.end < i ==> fold.start <= fold.end && train@ == identity(fold.start as nat)
                    + Seq::new((i - fold.end) as nat, |k: int| (fold.end + k) as usize) && val@
                    == Seq::new(
                    (fold.end - fold.start) as nat,
                    |k: int| (fold.start + k) as usize,
                ),
                fold.start == fold.end && i >= fold.end ==> val@.len() == 0,
            decreases n - i,
        {
            if i >= fold.start && i < fold.end {
                val.push(i);
                proof {
                    assert(val@ =~= Seq::new(
                        (i + 1 - fold.start) as nat,
                        |k: int| (fold.start + k) as usize,
                    ));
                }
            } else {
                train.push(i);
                proof {
                    if i < fold.start {
                        assert(train@ =~= identity((i + 1) as nat));
                    } else {
                        assert(train@ =~= identity(fold.start as nat) + Seq::new(
                            (i + 1 - fold.end) as nat,
                            |k: int| (fold.end + k) as usize,
                        ));
                    }
                }
            }
            i += 1;
        }
        proof {
            assert(train@ =~= identity(fold.start as nat) + Seq::new(
                (n - fold.end) as nat,
                |k: int| (fold.end + k) as usize,
            ));
            assert(val@ =~= Seq::new(
                (fold.end - fold.start) as nat,
                |k: int| (fold.start + k) as usize,
            ));
        }
        (train, val)
    }
}

/// Batch `b` of a mini-batch epoch lies inside the examples.
proof fn lemma_batch_fits(n: usize, size: usize, b: usize)
    requires
        0 < size,
        b < n / size,
    ensures
        b * size + size <= n,
        0 <= b * size,
{
    vstd::arithmetic::div_mod::lemma_fundamental_div_mod(n as int, size as int);
    assert((b + 1) * size <= (n / size) * size) by (nonlinear_arith)
        requires
            b + 1 <= n / size,
            0 < size,
    ;
    assert((b + 1) * size == b * size + size) by (nonlinear_arith);
    assert(0 <= b * size) by (nonlinear_arith)
        requires
            0 <= b,
            0 <= size,
    ;
    assert((n / size) * size == size * (n / size)) by (nonlinear_arith);
}

/// Fold `f` of a cross-validation lies inside the examples.
proof fn lemma_fold_fits(n: usize, k_folds: usize, f: usize)
    requires
        0 < k_folds,
        f < k_folds,
    ensures
        f * (n / k_folds) + n / k_folds <= n,
        0 <= f * (n / k_folds),
{
    let size = n / k_folds;
    vstd::arithmetic::div_mod::lemma_fundamental_div_mod(n as int, k_folds as int);
    assert((f + 1) * size <= k_folds * size) by (nonlinear_arith)
        requires
            f + 1 <= k_folds,
            0 <= size,
    ;
    assert((f + 1) * size == f * size + size) by (nonlinear_arith);
    assert(0 <= f * size) by (nonlinear_arith)
        requires
            0 <= f,
            0 <= size,
    ;
}

/// Trainer for the reservoir readout.
#[derive(Clone, Copy, Debug, PartialEq, Eq, Structural)]
pub struct ReservoirTrainer {
    /// Regularisation added to the number of samples.
    pub lambda: Fraction,
}

impl ReservoirTrainer {
    /// Creates a reservoir trainer.
    pub fn new(lambda: Fraction) -> (t: Self)
        ensures
            t.lambda == lambda,
    {
        ReservoirTrainer { lambda }
    }

    /// Checks the lengths of an input and a target sequence.
    ///
    /// Equal lengths give the number of steps: the inputs are fed in order,
    /// the state after every step is collected, the readout is fitted, the
    /// state is reset and the inputs are replayed to measure the error.
    /// Different lengths are rejected.
    pub fn train(&self, inputs: usize, targets: usize) -> (r: Result<usize, LengthMismatch>)
        ensures
            inputs == targets ==> r == Ok::<usize, LengthMismatch>(inputs),
            inputs != targets ==> r == Err::<usize, LengthMismatch>(
                LengthMismatch { inputs, targets },
            ),
    {
        if inputs != targets {
            Err(LengthMismatch { inputs, targets })
        } else {
            Ok(inputs)
        }
    }
}

/// Collects training data from a conversation history: every turn gives the
/// features of its query and the label of the route that answered it.
pub fn collect_training_data_from_feedback(
    router: &Router,
    history: &Vec<ConversationTurn>,
) -> (data: RouterTrainingData<Vec<Fraction>>)
    ensures
        data.features@.len() == history@.len(),
        data.labels@.len() == history@.len(),
        forall|i: int|
            0 <= i < history@.len() ==> is_feature_vector(
                (#[trigger] data.features@[i])@,
                router.keywords(),
                history@[i].query,
            ),
        forall|i: int|
            0 <= i < history@.len() ==> #[trigger] data.labels@[i] == label_of(
                history@[i].response.route,
            ),
{
    let mut data: RouterTrainingData<Vec<Fraction>> = RouterTrainingData::new();
    let mut i: usize = 0;
    while i < history.len()
        invariant
            i <= history@.len(),
            data.features@.len() == i,
            data.labels@.len() == i,
            forall|k: int|
                0 <= k < i ==> is_feature_vector(
                    (#[trigger] data.features@[k])@,
                    router.keywords(),
                    history@[k].query,
                ),
            forall|k: int|
                0 <= k < i ==> #[trigger] data.labels@[k] == label_of(history@[k].response.route),
        decreases history.len() - i,
    {
        let features = router.extract_features(&history[i].query);
        data.add_example(features, history[i].response.route);
        i += 1;
    }
    data
}

} // verus!
