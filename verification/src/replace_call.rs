use vstd::prelude::*;

use crate::expr::{ArgValue, CallArg, CallKeyword};
use crate::report::{ErrorCollector, ReportView, TextRange};
use crate::solver::{AnswersSolver, LookupAnswer};
use crate::types::Type;

verus! {

impl<Ans: LookupAnswer> AnswersSolver<Ans> {
    /// The type of an argument.
    pub open spec fn argument_type(self, value: ArgValue) -> Type {
        match value {
            ArgValue::Expr(e) => self.answers.inferred(e),
            ArgValue::Type(t) => t,
        }
    }

    /// The reports that go with it.
    pub open spec fn argument_reports(self, value: ArgValue) -> Seq<ReportView> {
        match value {
            ArgValue::Expr(e) => self.answers.inferred_reports(e),
            ArgValue::Type(_) => Seq::empty(),
        }
    }

    /// The type of an argument.
    pub fn infer_argument(&self, value: &ArgValue, errors: &mut ErrorCollector) -> (r: Type)
        ensures
            r == self.argument_type(*value),
            final(errors)@ == old(errors)@ + self.argument_reports(*value),
    {
        match value {
            ArgValue::Expr(e) => self.answers.expr_infer(*e, errors),
            ArgValue::Type(t) => {
                assert(errors@ + Seq::<ReportView>::empty() =~= errors@);
                t.dupe()
            },
        }
    }

    /// Whether a type is that of an instance of a dataclass.
    pub open spec fn dataclass_instance(self, ty: Type) -> bool {
        match ty {
            Type::ClassType(cls) => self.info(cls.class).metadata.dataclass is Some,
            _ => false,
        }
    }

    fn is_dataclass_instance(&self, ty: &Type) -> (r: bool)
        ensures
            r == self.dataclass_instance(*ty),
    {
        match ty {
            Type::ClassType(cls) => self.get_metadata_for_class(&cls.class).dataclass.is_some(),
            _ => false,
        }
    }

    /// The types that are those of dataclass instances, or those that are not, in order.
    pub open spec fn dataclasses_among(self, types: Seq<Type>, wanted: bool) -> Seq<Type>
        decreases types.len(),
    {
        if types.len() == 0 {
            Seq::empty()
        } else if self.dataclass_instance(types.last()) == wanted {
            self.dataclasses_among(types.drop_last(), wanted).push(types.last())
        } else {
            self.dataclasses_among(types.drop_last(), wanted)
        }
    }

    /// What `__replace__` returns for each of the types; one without that method stays as it is.
    pub open spec fn each_replaced(
        self,
        types: Seq<Type>,
        args: Seq<CallArg>,
        kws: Seq<CallKeyword>,
        call: u64,
    ) -> Seq<Type> {
        types.map_values(
            |ty: Type|
                match self.answers.replaced(ty, args, kws, call) {
                    Some(t) => t,
                    None => ty,
                },
        )
    }

    pub open spec fn each_replaced_reports(
        self,
        types: Seq<Type>,
        args: Seq<CallArg>,
        kws: Seq<CallKeyword>,
        call: u64,
    ) -> Seq<ReportView>
        decreases types.len(),
    {
        if types.len() == 0 {
            Seq::empty()
        } else {
            self.each_replaced_reports(types.drop_last(), args, kws, call)
                + self.answers.replaced_reports(types.last(), args, kws, call)
        }
    }

    /// The arguments with the first one exchanged for a type.
    pub open spec fn with_first(args: Seq<CallArg>, ty: Type, range: TextRange) -> Seq<CallArg> {
        seq![CallArg::Arg(ArgValue::Type(ty), range)] + args.skip(1)
    }

    /// What `dataclasses.replace` returns. Each dataclass among the members of the type of the
    /// object is asked on its own; all other members are passed to the function together.
    pub open spec fn replace_result(
        self,
        replace_ty: Type,
        args: Seq<CallArg>,
        kws: Seq<CallKeyword>,
        call: u64,
    ) -> Type {
        if args.len() > 0 && args[0] is Arg {
            let members = self.answers.members(self.argument_type(args[0]->Arg_0));
            let others = self.dataclasses_among(members, false);
            let own = self.each_replaced(
                self.dataclasses_among(members, true),
                args.skip(1),
                kws,
                call,
            );
            self.answers.unioned(
                if others.len() == 0 {
                    own
                } else {
                    own.push(
                        self.answers.called(
                            replace_ty,
                            Self::with_first(args, self.answers.unioned(others), args[0]->Arg_1),
                            kws,
                            call,
                        ),
                    )
                },
            )
        } else {
            self.answers.called(replace_ty, args, kws, call)
        }
    }

    /// The reports that go with it.
    pub open spec fn replace_reports(
        self,
        replace_ty: Type,
        args: Seq<CallArg>,
        kws: Seq<CallKeyword>,
        call: u64,
    ) -> Seq<ReportView> {
        if args.len() > 0 && args[0] is Arg {
            let members = self.answers.members(self.argument_type(args[0]->Arg_0));
            let others = self.dataclasses_among(members, false);
            self.argument_reports(args[0]->Arg_0) + self.each_replaced_reports(
                self.dataclasses_among(members, true),
                args.skip(1),
                kws,
                call,
            ) + (if others.len() == 0 {
                Seq::empty()
            } else {
                self.answers.called_reports(
                    replace_ty,
                    Self::with_first(args, self.answers.unioned(others), args[0]->Arg_1),
                    kws,
                    call,
                )
            })
        } else {
            self.answers.called_reports(replace_ty, args, kws, call)
        }
    }

    fn append_rest(args: &Vec<CallArg>, out: &mut Vec<CallArg>)
        requires
            args@.len() > 0,
        ensures
            final(out)@ == old(out)@ + args@.skip(1),
    {
        let mut i: usize = 1;
        assert(out@ =~= old(out)@ + args@.subrange(1, 1));
        while i < args.len()
            invariant
                1 <= i <= args@.len(),
                out@ == old(out)@ + args@.subrange(1, i as int),
            decreases args@.len() - i,
        {
            out.push(args[i].dupe());
            assert(out@ =~= old(out)@ + args@.subrange(1, i + 1));
            i = i + 1;
        }
        assert(args@.subrange(1, i as int) =~= args@.skip(1));
    }

    fn replace_each(
        &self,
        types: &Vec<Type>,
        args: &Vec<CallArg>,
        kws: &Vec<CallKeyword>,
        call: u64,
        errors: &mut ErrorCollector,
    ) -> (r: Vec<Type>)
        ensures
            r@ == self.each_replaced(types@, args@, kws@, call),
            final(errors)@ == old(errors)@ + self.each_replaced_reports(
                types@,
                args@,
                kws@,
                call,
            ),
    {
        let mut rets: Vec<Type> = Vec::new();
        let mut i: usize = 0;
        assert(types@.take(0) =~= Seq::empty());
        assert(errors@ =~= old(errors)@ + Seq::<ReportView>::empty());
        while i < types.len()
            invariant
                i <= types@.len(),
                rets@ == self.each_replaced(types@.take(i as int), args@, kws@, call),
                errors@ == old(errors)@ + self.each_replaced_reports(
                    types@.take(i as int),
                    args@,
                    kws@,
                    call,
                ),
            decreases types@.len() - i,
        {
            assert(types@.take(i + 1).drop_last() =~= types@.take(i as int));
            let ret = match self.answers.call_replace_method(&types[i], args, kws, call, errors) {
                Some(t) => t,
                None => types[i].dupe(),
            };
            rets.push(ret);
            assert(rets@ =~= self.each_replaced(types@.take(i + 1), args@, kws@, call));
            assert(errors@ =~= old(errors)@ + self.each_replaced_reports(
                types@.take(i + 1),
                args@,
                kws@,
                call,
            ));
            i = i + 1;
        }
        assert(types@.take(i as int) =~= types@);
        rets
    }

    fn split_dataclasses(&self, members: &Vec<Type>) -> (r: (Vec<Type>, Vec<Type>))
        ensures
            r.0@ == self.dataclasses_among(members@, true),
            r.1@ == self.dataclasses_among(members@, false),
    {
        let mut dataclasses: Vec<Type> = Vec::new();
        let mut non_dataclasses: Vec<Type> = Vec::new();
        let mut i: usize = 0;
        assert(members@.take(0) =~= Seq::empty());
        while i < members.len()
            invariant
                i <= members@.len(),
                dataclasses@ == self.dataclasses_among(members@.take(i as int), true),
                non_dataclasses@ == self.dataclasses_among(members@.take(i as int), false),
            decreases members@.len() - i,
        {
            assert(members@.take(i + 1).drop_last() =~= members@.take(i as int));
            if self.is_dataclass_instance(&members[i]) {
                dataclasses.push(members[i].dupe());
            } else {
                non_dataclasses.push(members[i].dupe());
            }
            i = i + 1;
        }
        assert(members@.take(i as int) =~= members@);
        (dataclasses, non_dataclasses)
    }

    /// Checks a call of `dataclasses.replace` and gives what it returns. The number is that of the
    /// call.
    pub fn call_dataclasses_replace(
        &self,
        replace_ty: &Type,
        args: &Vec<CallArg>,
        kws: &Vec<CallKeyword>,
        call: u64,
        errors: &mut ErrorCollector,
    ) -> (r: Type)
        ensures
            r == self.replace_result(*replace_ty, args@, kws@, call),
            final(errors)@ == old(errors)@ + self.replace_reports(
                *replace_ty,
                args@,
                kws@,
                call,
            ),
    {
        if args.len() == 0 {
            return self.answers.freeform_call_infer(replace_ty, args, kws, call, errors);
        }
        match &args[0] {
            CallArg::Star(_, _) => self.answers.freeform_call_infer(
                replace_ty,
                args,
                kws,
                call,
                errors,
            ),
            CallArg::Arg(value, range) => {
                let obj_ty = self.infer_argument(value, errors);
                let members = self.answers.get_members(&obj_ty);
                let (dataclasses, non_dataclasses) = self.split_dataclasses(&members);
                let mut rest: Vec<CallArg> = Vec::new();
                Self::append_rest(args, &mut rest);
                assert(rest@ =~= args@.skip(1));
                let mut rets = self.replace_each(&dataclasses, &rest, kws, call, errors);
                if non_dataclasses.len() > 0 {
                    let new_first = self.answers.unions(&non_dataclasses);
                    let mut new_args: Vec<CallArg> = Vec::new();
                    new_args.push(CallArg::Arg(ArgValue::Type(new_first), *range));
                    Self::append_rest(args, &mut new_args);
                    assert(new_args@ =~= Self::with_first(args@, new_first, *range));
                    rets.push(
                        self.answers.freeform_call_infer(
                            replace_ty,
                            &new_args,
                            kws,
                            call,
                            errors,
                        ),
                    );
                }
                assert(errors@ =~= old(errors)@ + self.replace_reports(
                    *replace_ty,
                    args@,
                    kws@,
                    call,
                ));
                self.answers.unions(&rets)
            },
        }
    }
}

} // verus!
